use vstd::prelude::*;
use vstd::string::StringExecFns;

verus! {

/// The HTTP verbs that a fetch may use.
#[derive(Clone, Copy, Debug, PartialEq, Eq, Structural)]
pub enum Method {
    Get,
    Post,
    Put,
    Delete,
}

/// The message returned for a verb outside the supported four.
pub open spec fn unsupported_method_message() -> Seq<char> {
    "Unsupported HTTP method"@
}

/// The verb that a method name denotes, if any. Names are matched exactly
/// (upper case, no surrounding space).
pub open spec fn method_of(name: Seq<char>) -> Option<Method> {
    if name == "GET"@ {
        Some(Method::Get)
    } else if name == "POST"@ {
        Some(Method::Post)
    } else if name == "PUT"@ {
        Some(Method::Put)
    } else if name == "DELETE"@ {
        Some(Method::Delete)
    } else {
        None
    }
}

impl Method {
    /// The name of the verb as it appears on the wire.
    pub open spec fn spec_name(self) -> Seq<char> {
        match self {
            Method::Get => "GET"@,
            Method::Post => "POST"@,
            Method::Put => "PUT"@,
            Method::Delete => "DELETE"@,
        }
    }

    /// Reads a method name; any name but the four supported verbs is refused
    /// with a fixed message.
    pub fn from_name(name: &String) -> (r: Result<Method, String>)
        ensures
            method_of(name@) matches Some(m) ==> r == Ok::<Method, String>(m),
            method_of(name@) is None ==> (r matches Err(e) && e@ == unsupported_method_message()),
    {
        if *name == String::from_str("GET") {
            Ok(Method::Get)
        } else if *name == String::from_str("POST") {
            Ok(Method::Post)
        } else if *name == String::from_str("PUT") {
            Ok(Method::Put)
        } else if *name == String::from_str("DELETE") {
            Ok(Method::Delete)
        } else {
            Err(String::from_str("Unsupported HTTP method"))
        }
    }

    /// The name of the verb.
    pub fn name(&self) -> (r: &'static str)
        ensures
            r@ == self.spec_name(),
    {
        match self {
            Method::Get => "GET",
            Method::Post => "POST",
            Method::Put => "PUT",
            Method::Delete => "DELETE",
        }
    }
}

/// Reading the name of a verb gives back that verb.
pub proof fn lemma_name_round_trip(m: Method)
    ensures
        method_of(m.spec_name()) == Some(m),
{
    reveal_strlit("GET");
    reveal_strlit("POST");
    reveal_strlit("PUT");
    reveal_strlit("DELETE");
    assert("PUT"@[0] != "GET"@[0]);
    assert("POST"@.len() != "GET"@.len());
    assert("DELETE"@.len() != "GET"@.len());
    assert("DELETE"@.len() != "POST"@.len());
    assert("DELETE"@.len() != "PUT"@.len());
    assert("PUT"@.len() != "POST"@.len());
}

} // verus!
