use vstd::prelude::*;

verus! {

/// The event state of a five stage envelope: when the key went down, when it
/// was let go, and the stage durations and levels in `parameters`.
///
/// `T` is the type of a point in time and `P` that of the stage parameters;
/// sampling the curve is arithmetic on those, done by the numeric side of the
/// synthesizer. A release is only meaningful once a press is set.
#[derive(Clone, Copy, Debug)]
pub struct Envelope<T, P> {
    pub press: Option<T>,
    pub release: Option<T>,
    pub parameters: P,
}

impl<T, P> Envelope<T, P> {
    /// The envelope after a press `at` the given time.
    pub open spec fn pressed(self, at: T) -> Self {
        Envelope { press: Some(at), release: None, ..self }
    }

    /// The envelope after a release `at` the given time.
    pub open spec fn released(self, at: T) -> Self {
        Envelope { release: Some(at), ..self }
    }

    /// The envelope with no events, keeping its parameters.
    pub open spec fn cleared(self) -> Self {
        Envelope { press: None, release: None, ..self }
    }

    /// An envelope with no events and the given parameters.
    pub fn new(parameters: P) -> (r: Self)
        ensures
            r.press.is_none(),
            r.release.is_none(),
            r.parameters == parameters,
    {
        Envelope { press: None, release: None, parameters }
    }

    /// Sets the press event `at` the given time and clears the release event.
    pub fn on_press(&mut self, at: T)
        ensures
            *final(self) == old(self).pressed(at),
    {
        self.press = Some(at);
        self.release = None;
    }

    /// Sets the release event `at` the given time.
    pub fn on_release(&mut self, at: T)
        ensures
            *final(self) == old(self).released(at),
    {
        self.release = Some(at);
    }

    /// Clears both events.
    pub fn reset(&mut self)
        ensures
            *final(self) == old(self).cleared(),
    {
        self.press = None;
        self.release = None;
    }
}

/// Pressing twice at the same time, with no release in between, leaves the
/// envelope exactly as one press does, so it samples the same afterwards.
pub proof fn lemma_press_idempotent<T, P>(e: Envelope<T, P>, at: T)
    ensures
        e.pressed(at).pressed(at) == e.pressed(at),
{
}

} // verus!
