//! The listener capability and the listener variants shipped with the library.

use vstd::prelude::*;

verus! {

/// A capability that receives messages carrying an unsigned 32-bit payload.
///
/// `on_msg` computes what the listener reports for a payload; running it on a
/// background task and printing the report is left to the caller.
pub trait UListener {
    /// What this listener reports when it receives `param`.
    spec fn reported(&self, param: u32) -> int;

    fn on_msg(&self, param: u32) -> (r: u64)
        ensures
            r as int == self.reported(param),
    ;
}

/// A listener that reports the payload unchanged.
pub struct MyListener {}

impl MyListener {
    pub fn new() -> (r: Self) {
        MyListener {  }
    }
}

impl UListener for MyListener {
    open spec fn reported(&self, param: u32) -> int {
        param as int
    }

    fn on_msg(&self, param: u32) -> (r: u64) {
        param as u64
    }
}

/// A listener that carries a value and reports it added to each payload.
pub struct FooListener {
    foo: u32,
}

impl FooListener {
    /// The value this listener carries.
    pub closed spec fn carried(&self) -> u32 {
        self.foo
    }

    pub fn new(foo: u32) -> (r: Self)
        ensures
            r.carried() == foo,
    {
        FooListener { foo }
    }
}

impl UListener for FooListener {
    open spec fn reported(&self, param: u32) -> int {
        self.carried() + param
    }

    fn on_msg(&self, param: u32) -> (r: u64) {
        self.foo as u64 + param as u64
    }
}

/// A second carrying listener, distinct in type from [`FooListener`].
pub struct BarListener {
    bar: u32,
}

impl BarListener {
    /// The value this listener carries.
    pub closed spec fn carried(&self) -> u32 {
        self.bar
    }

    pub fn new(bar: u32) -> (r: Self)
        ensures
            r.carried() == bar,
    {
        BarListener { bar }
    }
}

impl UListener for BarListener {
    open spec fn reported(&self, param: u32) -> int {
        self.carried() + param
    }

    fn on_msg(&self, param: u32) -> (r: u64) {
        self.bar as u64 + param as u64
    }
}

} // verus!
