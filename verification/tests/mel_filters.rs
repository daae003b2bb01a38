use bubble_meet::mel_filters::{mel_filter_table, MelFilterTable, UnexpectedMelBins};

#[test]
fn banks_by_bin_count() {
    assert_eq!(mel_filter_table(80), Ok(MelFilterTable::Bins80));
    assert_eq!(mel_filter_table(128), Ok(MelFilterTable::Bins128));
}

#[test]
fn other_bin_counts_are_refused() {
    assert_eq!(mel_filter_table(64), Err(UnexpectedMelBins { num_mel_bins: 64 }));
    assert_eq!(mel_filter_table(0), Err(UnexpectedMelBins { num_mel_bins: 0 }));
}
