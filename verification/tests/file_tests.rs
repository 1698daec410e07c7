use scope_radio::cfg::SourceOptions;
use scope_radio::file::{absorb_read, file_frame, pad_with_zeros, ReadProgress};

#[test]
fn the_rest_of_a_block_is_padded_with_zeros() {
    let mut block = vec![1u8, 2, 3, 4, 5];
    pad_with_zeros(&mut block, 2);
    assert_eq!(block, vec![1, 2, 0, 0, 0]);
    pad_with_zeros(&mut block, 5);
    assert_eq!(block, vec![1, 2, 0, 0, 0]);
    pad_with_zeros(&mut block, 0);
    assert_eq!(block, vec![0; 5]);
    let mut empty: Vec<u8> = Vec::new();
    pad_with_zeros(&mut empty, 0);
    assert!(empty.is_empty());
}

#[test]
fn reads_fill_the_block_until_it_is_full_or_the_file_ends() {
    let mut block = vec![9u8; 6];
    assert_eq!(absorb_read(&mut block, 0, 4), ReadProgress::Continue(4));
    assert_eq!(block, vec![9; 6]);
    assert_eq!(absorb_read(&mut block, 4, 1), ReadProgress::Continue(5));
    assert_eq!(absorb_read(&mut block, 5, 1), ReadProgress::Complete);
    assert_eq!(block, vec![9; 6]);
    assert_eq!(absorb_read(&mut block, 0, 6), ReadProgress::Complete);
    assert_eq!(absorb_read(&mut block, 4, 0), ReadProgress::Complete);
    assert_eq!(block, vec![9, 9, 9, 9, 0, 0]);
    assert_eq!(absorb_read(&mut block, 0, 0), ReadProgress::Complete);
    assert_eq!(block, vec![0; 6]);
}

#[test]
fn a_block_of_pcm_becomes_a_matrix() {
    let block = [0x00u8, 0x80, 0xFF, 0x7F, 0x00, 0x40, 0x00, 0xC0];
    assert_eq!(
        file_frame(&block, 2),
        vec![vec![-1_000_000, 500_000], vec![999_969, -500_000]]
    );
    assert_eq!(
        file_frame(&block, 1),
        vec![vec![-1_000_000, 999_969, 500_000, -500_000]]
    );
    assert_eq!(file_frame(&block[..6], 2), vec![vec![-1_000_000, 500_000], vec![999_969]]);
    assert_eq!(file_frame(&[], 0), Vec::<Vec<i32>>::new());
}

#[test]
fn the_block_size_is_buffer_times_channels() {
    let mut options = SourceOptions { channels: 2, buffer: 2048, sample_rate: 48000, tune: None };
    assert_eq!(options.file_buffer_len(), Some(4096));
    options.channels = 0;
    assert_eq!(options.file_buffer_len(), Some(0));
    options.channels = usize::MAX;
    assert_eq!(options.file_buffer_len(), None);
    options.buffer = 1;
    assert_eq!(options.file_buffer_len(), Some(usize::MAX));
}
