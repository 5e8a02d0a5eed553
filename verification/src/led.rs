//! On-board RGB LED channels.
//!
//! Each channel is a device handle with a boolean on/off state. The handle
//! hides the electrical polarity of the underlying pin: `on` always means
//! logically lit, whatever level the pin itself is driven to.

use vstd::prelude::*;

verus! {

/// Generic LED: a device handle with a boolean on/off state.
pub trait Led {
    /// The logical state of the LED: true when lit.
    spec fn lit(&self) -> bool;

    /// Turns the LED off
    fn off(&mut self)
        ensures
            !final(self).lit(),
    ;

    /// Turns the LED on
    fn on(&mut self)
        ensures
            final(self).lit(),
    ;

    /// Reports whether the LED is currently on
    fn is_on(&self) -> (r: bool)
        ensures
            r == self.lit(),
    ;
}

/// Red LED
pub struct RED {
    state: bool,
}

impl RED {
    /// A fresh handle; the channel starts off.
    pub fn new() -> (r: Self)
        ensures
            !r.lit(),
    {
        RED { state: false }
    }
}

impl Led for RED {
    closed spec fn lit(&self) -> bool {
        self.state
    }

    fn off(&mut self) {
        self.state = false;
    }

    fn on(&mut self) {
        self.state = true;
    }

    fn is_on(&self) -> (r: bool) {
        self.state
    }
}

/// Green LED
pub struct GREEN {
    state: bool,
}

impl GREEN {
    /// A fresh handle; the channel starts off.
    pub fn new() -> (r: Self)
        ensures
            !r.lit(),
    {
        GREEN { state: false }
    }
}

impl Led for GREEN {
    closed spec fn lit(&self) -> bool {
        self.state
    }

    fn off(&mut self) {
        self.state = false;
    }

    fn on(&mut self) {
        self.state = true;
    }

    fn is_on(&self) -> (r: bool) {
        self.state
    }
}

/// Blue LED
pub struct BLUE {
    state: bool,
}

impl BLUE {
    /// A fresh handle; the channel starts off.
    pub fn new() -> (r: Self)
        ensures
            !r.lit(),
    {
        BLUE { state: false }
    }
}

impl Led for BLUE {
    closed spec fn lit(&self) -> bool {
        self.state
    }

    fn off(&mut self) {
        self.state = false;
    }

    fn on(&mut self) {
        self.state = true;
    }

    fn is_on(&self) -> (r: bool) {
        self.state
    }
}

/// Returns RED, GREEN and BLUE LED handles, all off.
pub fn rgb() -> (r: (RED, GREEN, BLUE))
    ensures
        !r.0.lit(),
        !r.1.lit(),
        !r.2.lit(),
{
    (RED::new(), GREEN::new(), BLUE::new())
}

} // verus!
