use vstd::prelude::*;

use crate::error::ClientError;

verus! {

/// A method of the client's request interface.
#[derive(Debug, Clone, Copy, PartialEq, Eq, Structural)]
pub enum Method {
    Provide,
    Get,
    Listen,
    Dial,
    GetPeers,
}

/// The method with this name, if there is one.
pub open spec fn method_named(name: Seq<char>) -> Option<Method> {
    if name == "provide"@ {
        Some(Method::Provide)
    } else if name == "get"@ {
        Some(Method::Get)
    } else if name == "listen"@ {
        Some(Method::Listen)
    } else if name == "dial"@ {
        Some(Method::Dial)
    } else if name == "get_peers"@ {
        Some(Method::GetPeers)
    } else {
        None
    }
}

impl Method {
    /// The method that a request names. A request that names none asks for
    /// nothing; one that names an unknown method is refused.
    pub fn parse(name: Option<&str>) -> (r: Result<Option<Method>, ClientError>)
        ensures
            name is None ==> r == Ok::<Option<Method>, ClientError>(None),
            name matches Some(s) ==> r == match method_named(s@) {
                Some(m) => Ok::<Option<Method>, ClientError>(Some(m)),
                None => Err(ClientError::InvalidMethod),
            },
    {
        match name {
            None => Ok(None),
            Some(s) => {
                let s = s.to_owned();
                if s == "provide".to_owned() {
                    Ok(Some(Method::Provide))
                } else if s == "get".to_owned() {
                    Ok(Some(Method::Get))
                } else if s == "listen".to_owned() {
                    Ok(Some(Method::Listen))
                } else if s == "dial".to_owned() {
                    Ok(Some(Method::Dial))
                } else if s == "get_peers".to_owned() {
                    Ok(Some(Method::GetPeers))
                } else {
                    Err(ClientError::InvalidMethod)
                }
            },
        }
    }
}

} // verus!
