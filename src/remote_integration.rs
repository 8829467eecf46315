use vstd::prelude::*;

verus! {

/// A build service with a light of its own: the three channel identifiers that
/// the light is wired to.
pub trait RemoteIntegration {
    fn get_red_id(&self) -> u16;

    fn get_green_id(&self) -> u16;

    fn get_blue_id(&self) -> u16;
}

} // verus!
