use vstd::prelude::*;

verus! {

/// How many candidates a rejection sampler draws before it gives up.
pub const MAX_REJECTIONS: u32 = 1_000_000;

/// Parameters drawn near the boundary of the Mandelbrot set, whose Julia sets
/// are the most intricate.
pub struct MandelbrotBoundary {
    pub max_iter: usize,
}

/// No candidate was accepted within the allowed number of draws.
#[derive(Debug, Clone, Copy, PartialEq, Eq, Structural)]
pub struct SamplingExhausted {
    pub attempts: u32,
}

/// What a rejection sampler does after the verdict on a candidate.
#[derive(Debug, Clone, Copy, PartialEq, Eq, Structural)]
pub enum RejectionStep {
    /// Keep the candidate just drawn.
    Accept,
    /// Draw another candidate.
    DrawAgain,
    /// Stop: every allowed draw was rejected.
    GiveUp,
}

/// The step after draw number `attempt` (counted from one) out of
/// `max_attempts`, whose candidate was `accepted` or not.
pub open spec fn rejection_step_spec(attempt: nat, max_attempts: nat, accepted: bool) -> RejectionStep {
    if accepted {
        RejectionStep::Accept
    } else if attempt >= max_attempts {
        RejectionStep::GiveUp
    } else {
        RejectionStep::DrawAgain
    }
}

/// Decides, after draw number `attempt` out of `max_attempts`, whether to keep
/// its candidate, draw again, or give up.
pub fn rejection_step(attempt: u32, max_attempts: u32, accepted: bool) -> (r: RejectionStep)
    ensures
        r == rejection_step_spec(attempt as nat, max_attempts as nat, accepted),
{
    if accepted {
        RejectionStep::Accept
    } else if attempt >= max_attempts {
        RejectionStep::GiveUp
    } else {
        RejectionStep::DrawAgain
    }
}

impl MandelbrotBoundary {
    /// Rejection sampling of a parameter: draws candidates until `near_boundary`
    /// accepts one, and gives up after `MAX_REJECTIONS` draws.
    pub fn sample_with<C, D, A>(&self, draw: D, near_boundary: A) -> (r: Result<C, SamplingExhausted>)
        where
            D: FnMut() -> C,
            A: Fn(&C) -> bool,
        requires
            draw.requires(()),
            forall|c: &C| near_boundary.requires((c,)),
        ensures
            r matches Ok(c) ==> near_boundary.ensures((&c,), true),
            r matches Err(e) ==> e.attempts == MAX_REJECTIONS,
            r is Err ==> exists|c: &C| #[trigger] near_boundary.ensures((c,), false),
            (forall|c: &C, b: bool| #[trigger] near_boundary.ensures((c,), b) ==> b) ==> r is Ok,
    {
        first_accepted(MAX_REJECTIONS, draw, near_boundary)
    }
}

/// Draws candidates until one is accepted, at most `max_attempts` of them,
/// and returns the first accepted one. Each verdict is followed as
/// `rejection_step` decides.
pub fn first_accepted<C, D, A>(max_attempts: u32, draw: D, accept: A) -> (r: Result<C, SamplingExhausted>)
    where
        D: FnMut() -> C,
        A: Fn(&C) -> bool,
    requires
        draw.requires(()),
        forall|c: &C| accept.requires((c,)),
    ensures
        r matches Ok(c) ==> accept.ensures((&c,), true),
        r matches Err(e) ==> e.attempts == max_attempts,
        max_attempts == 0 ==> r is Err,
        max_attempts > 0 && r is Err ==> exists|c: &C| #[trigger] accept.ensures((c,), false),
        max_attempts > 0 && (forall|c: &C, b: bool| #[trigger] accept.ensures((c,), b) ==> b) ==> r is Ok,
{
    if max_attempts == 0 {
        return Err(SamplingExhausted { attempts: max_attempts });
    }
    let mut draw = draw;
    let mut attempt: u32 = 1;
    loop
        invariant
            draw.requires(()),
            forall|c: &C| accept.requires((c,)),
            1 <= attempt <= max_attempts,
        decreases max_attempts - attempt,
    {
        let c = draw();
        let accepted = accept(&c);
        match rejection_step(attempt, max_attempts, accepted) {
            RejectionStep::Accept => {
                return Ok(c);
            },
            RejectionStep::GiveUp => {
                assert(accept.ensures((&c,), false));
                return Err(SamplingExhausted { attempts: max_attempts });
            },
            RejectionStep::DrawAgain => {
                attempt = attempt + 1;
            },
        }
    }
}

} // verus!
