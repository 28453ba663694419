use vstd::prelude::*;

mod guess;
mod linalg_index;
mod rectangles;
mod system_time;

pub use guess::Guess;
pub use guess::GuessOutcome;
pub use guess::guess_in_range;
pub use guess::guess_outcome;
pub use linalg_index::cofactor_sign;
pub use linalg_index::minor_index;
pub use rectangles::Rectangle;
pub use rectangles::area;
pub use rectangles::checked_total;
pub use rectangles::parts_sums;
pub use rectangles::sum_from;
pub use system_time::TimerScoped;
pub use system_time::now_ms;
pub use system_time::ns_to_ms;
pub use system_time::ns_to_us;
pub use system_time::us_to_ms;
pub use system_time::now_ms_workaround;
pub use system_time::now_ns;
pub use system_time::now_us;

verus! {

/// A handle to a thing that lives in the game world; the engine gives each
/// one a numeric identity.
#[allow(non_camel_case_types)]
pub struct entity {
    pub id: i32,
}

} // verus!
