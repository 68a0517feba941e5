//! Device metadata picked out of a HART command-0 response.

use vstd::prelude::*;
use crate::protocol::wire::spec_u16_be;

verus! {

#[derive(Debug, Clone, Copy, PartialEq, Eq, Structural)]
pub struct Metadata {
    pub hart_protocol_major_revision: u8,
    pub device_revision_level: u8,
    pub software_revision_level: u8,
    pub number_of_preemble_bytes_in_response: u8,
    pub configuration_change_counter: u16,
}

impl Metadata {
    /// Takes each field from its offset in the HART response, leaving a
    /// field unchanged when the response is too short to hold it.
    pub fn map_to_metadata(&mut self, hart_response: &Vec<u8>)
        ensures
            final(self).hart_protocol_major_revision == if hart_response@.len() > 3 {
                hart_response@[3]
            } else {
                old(self).hart_protocol_major_revision
            },
            final(self).device_revision_level == if hart_response@.len() > 5 {
                hart_response@[5]
            } else {
                old(self).device_revision_level
            },
            final(self).software_revision_level == if hart_response@.len() > 6 {
                hart_response@[6]
            } else {
                old(self).software_revision_level
            },
            final(self).number_of_preemble_bytes_in_response == if hart_response@.len() > 12 {
                hart_response@[12]
            } else {
                old(self).number_of_preemble_bytes_in_response
            },
            final(self).configuration_change_counter == if hart_response@.len() >= 16 {
                spec_u16_be(hart_response@[14], hart_response@[15])
            } else {
                old(self).configuration_change_counter
            },
    {
        let n: usize = hart_response.len();
        if n > 3 {
            self.hart_protocol_major_revision = hart_response[3];
        }
        if n > 5 {
            self.device_revision_level = hart_response[5];
        }
        if n > 6 {
            self.software_revision_level = hart_response[6];
        }
        if n > 12 {
            self.number_of_preemble_bytes_in_response = hart_response[12];
        }
        if n >= 16 {
            self.configuration_change_counter = crate::protocol::wire::read_u16_be(
                hart_response,
                14,
            );
        }
    }
}

} // verus!
