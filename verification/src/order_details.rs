use vstd::prelude::*;

verus! {

/// The decoded payload at the specification level.
pub struct DetailsView {
    pub decay_start_time: u64,
    pub decay_end_time: u64,
    pub exclusive_filler: Seq<char>,
    pub exclusivity_override_bps: u64,
    pub reactor: Seq<char>,
    pub swapper: Seq<char>,
    pub nonce: Seq<char>,
    pub deadline: u64,
    pub additional_validation_contract: Seq<char>,
    pub additional_validation_data: Seq<char>,
}

/// What an order's opaque payload decodes to: decay timing, exclusivity,
/// the protocol parties, and the additional-validation block. Addresses are
/// lowercase `0x` hex, the nonce is decimal, all in canonical text form.
#[derive(Clone, Debug, PartialEq, Eq)]
pub struct OrderDetails {
    pub decay_start_time: u64,
    pub decay_end_time: u64,
    pub exclusive_filler: String,
    pub exclusivity_override_bps: u64,
    pub reactor: String,
    pub swapper: String,
    pub nonce: String,
    pub deadline: u64,
    pub additional_validation_contract: String,
    pub additional_validation_data: String,
}

impl View for OrderDetails {
    type V = DetailsView;

    open spec fn view(&self) -> DetailsView {
        DetailsView {
            decay_start_time: self.decay_start_time,
            decay_end_time: self.decay_end_time,
            exclusive_filler: self.exclusive_filler@,
            exclusivity_override_bps: self.exclusivity_override_bps,
            reactor: self.reactor@,
            swapper: self.swapper@,
            nonce: self.nonce@,
            deadline: self.deadline,
            additional_validation_contract: self.additional_validation_contract@,
            additional_validation_data: self.additional_validation_data@,
        }
    }
}

} // verus!
