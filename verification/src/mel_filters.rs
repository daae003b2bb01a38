//! Which mel filter bank goes with a speech model: the bank is picked by the
//! number of mel bins in the model's configuration.

use vstd::prelude::*;

verus! {

/// The mel filter banks that ship with the transcriber.
#[derive(Debug, Clone, Copy, PartialEq, Eq, Structural)]
pub enum MelFilterTable {
    /// The bank for models with 80 mel bins.
    Bins80,
    /// The bank for models with 128 mel bins.
    Bins128,
}

/// A model configuration asks for a number of mel bins that no bank has.
#[derive(Debug, Clone, Copy, PartialEq, Eq, Structural)]
pub struct UnexpectedMelBins {
    pub num_mel_bins: usize,
}

/// The bank for `num_mel_bins`: 80 and 128 bins have one, any other number
/// is refused with that number.
pub fn mel_filter_table(num_mel_bins: usize) -> (r: Result<MelFilterTable, UnexpectedMelBins>)
    ensures
        num_mel_bins == 80 ==> r == Ok::<MelFilterTable, UnexpectedMelBins>(MelFilterTable::Bins80),
        num_mel_bins == 128 ==> r == Ok::<MelFilterTable, UnexpectedMelBins>(MelFilterTable::Bins128),
        num_mel_bins != 80 && num_mel_bins != 128 ==> r == Err::<MelFilterTable, UnexpectedMelBins>(
            UnexpectedMelBins { num_mel_bins },
        ),
{
    if num_mel_bins == 80 {
        Ok(MelFilterTable::Bins80)
    } else if num_mel_bins == 128 {
        Ok(MelFilterTable::Bins128)
    } else {
        Err(UnexpectedMelBins { num_mel_bins })
    }
}

} // verus!
