//! The artificial horizon display and the values that its keys edit.
use crate::model::Editable;
use crate::softkeys::{Softkeys, SoftkeysView};
use vstd::prelude::*;

verus! {

/// Assigns the keys of the horizon display: McCready, water ballast, pilot weight and vario
/// mode control, and as long presses glider and theme.
pub fn set_horizon_active(softkeys: &mut Softkeys)
    ensures
        final(softkeys)@ == (SoftkeysView {
            primary: seq![Editable::McCready, Editable::WaterBallast, Editable::PilotWeight, Editable::VarioModeControl],
            key1_3s: Editable::Glider,
            key2_3s: Editable::Theme,
            ..old(softkeys)@
        }),
{
    softkeys.set_editables(Editable::McCready, Editable::WaterBallast, Editable::PilotWeight, Editable::VarioModeControl);
    softkeys.set_3s_keys(Editable::Glider, Editable::Theme);
}

} // verus!
