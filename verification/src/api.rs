use vstd::prelude::*;

verus! {

/// One live peer in a health report.
#[derive(Debug)]
pub struct Service {
    pub ip: String,
    pub status: String,
}

/// A live peer as plain mathematical values.
pub struct ServiceView {
    pub ip: Seq<char>,
    pub status: Seq<char>,
}

impl View for Service {
    type V = ServiceView;

    open spec fn view(&self) -> ServiceView {
        ServiceView { ip: self.ip@, status: self.status@ }
    }
}

/// The body of a successful health report: the reporting node's own address
/// and the peers that count as alive.
#[derive(Debug)]
pub struct Status {
    pub ip: String,
    pub services: Vec<Service>,
}

/// A health report as plain mathematical values.
pub struct StatusView {
    pub ip: Seq<char>,
    pub services: Seq<ServiceView>,
}

impl View for Status {
    type V = StatusView;

    open spec fn view(&self) -> StatusView {
        StatusView { ip: self.ip@, services: services_view(self.services@) }
    }
}

/// The peers of a report, each as plain values, in the report's order.
pub open spec fn services_view(services: Seq<Service>) -> Seq<ServiceView> {
    services.map_values(|s: Service| s@)
}

/// The body of a failed health report: the text of what went wrong.
#[derive(Debug)]
pub struct Error {
    pub error: String,
}

impl View for Error {
    type V = Seq<char>;

    open spec fn view(&self) -> Seq<char> {
        self.error@
    }
}

/// What a health check answers: a report, or the reason none could be made.
#[derive(Debug)]
pub enum HealthcheckResponse {
    Healthy(Status),
    ServiceUnavailable(Error),
}

/// An answer as plain mathematical values.
pub enum ResponseView {
    Healthy(StatusView),
    ServiceUnavailable(Seq<char>),
}

impl View for HealthcheckResponse {
    type V = ResponseView;

    open spec fn view(&self) -> ResponseView {
        match self {
            HealthcheckResponse::Healthy(status) => ResponseView::Healthy(status@),
            HealthcheckResponse::ServiceUnavailable(error) => ResponseView::ServiceUnavailable(
                error@,
            ),
        }
    }
}

/// HTTP status code of a successful health report.
pub const HTTP_OK: u16 = 200;

/// HTTP status code of a failed health report.
pub const HTTP_SERVICE_UNAVAILABLE: u16 = 503;

impl HealthcheckResponse {
    /// The HTTP status code that goes with this answer.
    pub open spec fn spec_status_code(&self) -> u16 {
        match self {
            HealthcheckResponse::Healthy(_) => HTTP_OK,
            HealthcheckResponse::ServiceUnavailable(_) => HTTP_SERVICE_UNAVAILABLE,
        }
    }

    /// The HTTP status code that goes with this answer.
    #[verifier::when_used_as_spec(spec_status_code)]
    pub fn status_code(&self) -> (code: u16)
        ensures
            code == self.spec_status_code(),
    {
        match self {
            HealthcheckResponse::Healthy(_) => HTTP_OK,
            HealthcheckResponse::ServiceUnavailable(_) => HTTP_SERVICE_UNAVAILABLE,
        }
    }
}

} // verus!
