//! Which modes exist, and which of them belong to one theme only.

use crate::error::ParamError;
use crate::theme::Theme;
use vstd::prelude::*;

verus! {

/// Whether a mode can be chosen with a theme. Mode 5 belongs to Sami and mode
/// 20001 to JieGarden; every other mode is one of 0 to 7 and open to all
/// themes. The two restricted modes are looked at first, in this order.
pub open spec fn check_mode(theme: Theme, mode: int) -> Result<(), ParamError> {
    if mode == 5 && theme != Theme::Sami {
        Err(ParamError::ModeRequiresSami)
    } else if mode == 20001 && theme != Theme::JieGarden {
        Err(ParamError::ModeRequiresJieGarden)
    } else if 0 <= mode <= 7 || mode == 20001 {
        Ok(())
    } else {
        Err(ParamError::ModeOutOfRange)
    }
}

/// Checks that `mode` can be chosen with `theme`.
pub fn validate_mode(theme: Theme, mode: i32) -> (checked: Result<(), ParamError>)
    ensures
        checked == check_mode(theme, mode as int),
{
    if mode == 5 && theme != Theme::Sami {
        Err(ParamError::ModeRequiresSami)
    } else if mode == 20001 && theme != Theme::JieGarden {
        Err(ParamError::ModeRequiresJieGarden)
    } else if (0 <= mode && mode <= 7) || mode == 20001 {
        Ok(())
    } else {
        Err(ParamError::ModeOutOfRange)
    }
}

} // verus!
