use vstd::prelude::*;

verus! {

/// Whether a host's channel layout can be served: any symmetric layout with at
/// least one channel, since every channel is processed on its own.
pub fn accepts_bus_config(num_input_channels: u32, num_output_channels: u32) -> (r: bool)
    ensures
        r == (num_input_channels == num_output_channels && num_input_channels > 0),
{
    num_input_channels == num_output_channels && num_input_channels > 0
}

} // verus!
