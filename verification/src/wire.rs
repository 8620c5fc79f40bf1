//! The two documents of the control socket: one request, one response.

use vstd::prelude::*;

verus! {

/// The characters of an optional text.
pub open spec fn text_of(text: Option<String>) -> Option<Seq<char>> {
    match text {
        Some(t) => Some(t@),
        None => None,
    }
}

/// What a client asks for. `cmd` selects the operation, `device` the target
/// address; the two parameters carry a key and a value where the operation
/// takes them.
#[derive(Clone, Debug, PartialEq, Eq)]
pub struct Request {
    pub cmd: String,
    pub device: Option<String>,
    pub opt_param1: Option<String>,
    pub opt_param2: Option<String>,
}

pub struct RequestView {
    pub cmd: Seq<char>,
    pub device: Option<Seq<char>>,
    pub opt_param1: Option<Seq<char>>,
    pub opt_param2: Option<Seq<char>>,
}

impl View for Request {
    type V = RequestView;

    open spec fn view(&self) -> RequestView {
        RequestView {
            cmd: self.cmd@,
            device: text_of(self.device),
            opt_param1: text_of(self.opt_param1),
            opt_param2: text_of(self.opt_param2),
        }
    }
}

impl RequestView {
    /// The address the request names; an absent one counts as the empty address.
    pub open spec fn target(self) -> Seq<char> {
        match self.device {
            Some(address) => address,
            None => Seq::empty(),
        }
    }
}

impl Request {
    /// A request without parameters.
    pub fn new(cmd: String, device: Option<String>) -> (request: Request)
        ensures
            request@ == (RequestView {
                cmd: cmd@,
                device: text_of(device),
                opt_param1: None,
                opt_param2: None,
            }),
    {
        Request { cmd, device, opt_param1: None, opt_param2: None }
    }
}

/// The request for the mirrored state of a device.
pub fn new_status_request(device: Option<String>) -> (request: Request)
    ensures
        request@ == (RequestView {
            cmd: "get_status"@,
            device: text_of(device),
            opt_param1: None,
            opt_param2: None,
        }),
{
    Request::new("get_status".to_owned(), device)
}

/// Whether a request was carried out.
#[derive(Clone, Copy, Debug, PartialEq, Eq, Structural)]
pub enum Status {
    Success,
    Error,
}

/// The answer to one request. An error carries a message and no payload; a
/// success carries no message.
#[derive(Clone, Debug, PartialEq, Eq)]
pub struct Response<T> {
    pub status: Status,
    pub device: String,
    pub message: Option<String>,
    pub payload: Option<T>,
}

pub struct ResponseView<V> {
    pub status: Status,
    pub device: Seq<char>,
    pub message: Option<Seq<char>>,
    pub payload: Option<V>,
}

impl<V> ResponseView<V> {
    /// The error response for a device, with its cause.
    pub open spec fn error(device: Seq<char>, message: Seq<char>) -> Self {
        ResponseView { status: Status::Error, device, message: Some(message), payload: None }
    }

    /// The success response for a device.
    pub open spec fn success(device: Seq<char>, payload: Option<V>) -> Self {
        ResponseView { status: Status::Success, device, message: None, payload }
    }
}

impl<T: View> View for Response<T> {
    type V = ResponseView<T::V>;

    open spec fn view(&self) -> ResponseView<T::V> {
        ResponseView {
            status: self.status,
            device: self.device@,
            message: text_of(self.message),
            payload: match self.payload {
                Some(p) => Some(p@),
                None => None,
            },
        }
    }
}

impl<T: View> Response<T> {
    /// An error response.
    pub fn new_error(device: String, message: &str) -> (response: Self)
        ensures
            response@ == ResponseView::<T::V>::error(device@, message@),
    {
        Response {
            status: Status::Error,
            device,
            message: Some(message.to_owned()),
            payload: None,
        }
    }

    /// A success response.
    pub fn new_success(device: String, payload: Option<T>) -> (response: Self)
        ensures
            response@ == ResponseView::<T::V>::success(
                device@,
                match payload {
                    Some(p) => Some(p@),
                    None => None,
                },
            ),
    {
        Response { status: Status::Success, device, message: None, payload }
    }

    pub fn is_success(&self) -> (yes: bool)
        ensures
            yes == (self@.status == Status::Success),
    {
        match self.status {
            Status::Success => true,
            Status::Error => false,
        }
    }
}

} // verus!
