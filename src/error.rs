use vstd::prelude::*;

verus! {

/// An error of the server that ends one connection.
#[derive(Debug, Clone)]
pub struct ServerError {
    pub message: String,
}

impl ServerError {
    /// The error's text, for logs.
    pub fn to_string(&self) -> (r: String)
        ensures
            r@ == self.message@,
    {
        self.message.clone()
    }
}

} // verus!
