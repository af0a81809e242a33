use vstd::prelude::*;

verus! {

/// A stateless contract whose single message returns a fixed greeting.
pub struct HelloWorld {}

impl HelloWorld {
    pub fn new() -> (r: HelloWorld)
        ensures
            r == (HelloWorld {}),
    {
        HelloWorld {}
    }

    /// Returns the greeting, always the string `Hello World`.
    pub fn hello_world(&self) -> (r: String)
        ensures
            r@ == "Hello World"@,
    {
        let s = String::from_str("Hello World");
        s
    }
}

} // verus!
