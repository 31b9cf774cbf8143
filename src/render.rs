use vstd::prelude::*;

verus! {

/// Colour falloff for a connected Julia set: gentle.
pub const CONNECTED_SHARPNESS: u32 = 25;

/// Colour falloff for a disconnected Julia set: sharp, as its dust is thin.
pub const DISCONNECTED_SHARPNESS: u32 = 100;

/// Factor by which an image is rendered larger than it is delivered, so that
/// shrinking it smooths its edges.
pub const SUPERSAMPLING: u32 = 2;

/// The sharpness of the colour falloff, chosen by connectivity.
pub fn sharpness(connected: bool) -> (r: u32)
    ensures
        r == if connected {
            CONNECTED_SHARPNESS
        } else {
            DISCONNECTED_SHARPNESS
        },
{
    if connected {
        CONNECTED_SHARPNESS
    } else {
        DISCONNECTED_SHARPNESS
    }
}

/// One side of a supersampled image.
pub open spec fn scaled_up(n: nat) -> nat {
    (SUPERSAMPLING as nat) * n
}

/// One side of a supersampled image once shrunk.
pub open spec fn scaled_down(n: nat) -> nat {
    n / (SUPERSAMPLING as nat)
}

/// The size at which an image of `width` × `height` is rendered, if it is
/// representable.
pub fn supersampled(width: u32, height: u32) -> (r: Option<(u32, u32)>)
    ensures
        r is Some <==> scaled_up(width as nat) <= u32::MAX && scaled_up(height as nat) <= u32::MAX,
        r matches Some((w, h)) ==> w == scaled_up(width as nat) && h == scaled_up(height as nat),
{
    match (width.checked_mul(SUPERSAMPLING), height.checked_mul(SUPERSAMPLING)) {
        (Some(w), Some(h)) => Some((w, h)),
        _ => None,
    }
}

/// The size to which a supersampled image of `width` × `height` is shrunk.
pub fn downsampled(width: u32, height: u32) -> (r: (u32, u32))
    ensures
        r.0 == scaled_down(width as nat),
        r.1 == scaled_down(height as nat),
{
    (width / SUPERSAMPLING, height / SUPERSAMPLING)
}

/// Shrinking a supersampled side gives back the side asked for.
pub proof fn supersampling_round_trip(n: nat)
    ensures
        scaled_down(scaled_up(n)) == n,
{
}

} // verus!
