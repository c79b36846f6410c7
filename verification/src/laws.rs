//! Laws of the control-line interface, stated over the abstract states that
//! the contracts in [`crate::interface`] use.

use vstd::prelude::*;

use crate::interface::InterfaceView;
use crate::interface::missing_control_pins;
use crate::ports::PortType;

verus! {

/// A port whose interface kind is known never requires control pins: no
/// choice of `dtr` and `rts` (both absent included) is rejected by the
/// capability negotiation.
pub proof fn lemma_known_port_needs_no_pins(dtr: Option<u8>, rts: Option<u8>)
    ensures
        !missing_control_pins(PortType::Known, dtr, rts),
{
}

/// A port whose interface kind is unknown is rejected by the capability
/// negotiation whenever either control pin is absent.
pub proof fn lemma_unknown_port_missing_pin_rejected(dtr: Option<u8>, rts: Option<u8>)
    requires
        dtr is None || rts is None,
    ensures
        missing_control_pins(PortType::Unknown, dtr, rts),
{
}

/// A port whose interface kind is unknown passes the capability negotiation
/// whenever both control pins are supplied, whatever their numbers.
pub proof fn lemma_unknown_port_both_pins_accepted(dtr_pin: u8, rts_pin: u8)
    ensures
        !missing_control_pins(PortType::Unknown, Some(dtr_pin), Some(rts_pin)),
{
}

/// Idempotence: commanding a line to the same level twice leaves the
/// interface in the same abstract state as commanding it once, whichever
/// mechanism backs the line.
pub proof fn lemma_set_line_idempotent(v: InterfaceView, level: bool)
    ensures
        v.with_dtr_level(Some(level)).with_dtr_level(Some(level)) == v.with_dtr_level(Some(level)),
        v.with_rts_level(Some(level)).with_rts_level(Some(level)) == v.with_rts_level(Some(level)),
{
}

/// Round trip: commanding a line to `true` and then to `false` leaves the
/// line in the `false` state, whichever mechanism backs it, and leaves the
/// other line and both backings untouched.
pub proof fn lemma_set_line_round_trip(v: InterfaceView)
    ensures
        v.with_dtr_level(Some(true)).with_dtr_level(Some(false))
            == v.with_dtr_level(Some(false)),
        v.with_dtr_level(Some(false)).dtr.level == Some(false),
        v.with_dtr_level(Some(false)).dtr.gpio_pin == v.dtr.gpio_pin,
        v.with_dtr_level(Some(false)).rts == v.rts,
        v.with_rts_level(Some(true)).with_rts_level(Some(false))
            == v.with_rts_level(Some(false)),
        v.with_rts_level(Some(false)).rts.level == Some(false),
        v.with_rts_level(Some(false)).rts.gpio_pin == v.rts.gpio_pin,
        v.with_rts_level(Some(false)).dtr == v.dtr,
{
}

} // verus!
