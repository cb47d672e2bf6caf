use system_audio::samples::{
    center_unsigned, center_unsigned_batch, scale_signed, scale_signed_batch, StopLatch,
    Conversion, ForwardStep, Rebatcher, SampleFormat, CHUNK_SIZE, FULL_SCALE,
};

#[test]
fn centering_keeps_its_asymmetry() {
    assert_eq!(center_unsigned(0), -32768);
    assert_eq!(center_unsigned(1), -32767);
    assert_eq!(center_unsigned(32767), -1);
    assert_eq!(center_unsigned(32768), 0);
    assert_eq!(center_unsigned(32769), 1);
    assert_eq!(center_unsigned(65535), 32767);
    assert_eq!(FULL_SCALE, 32768);
}

#[test]
fn centering_matches_the_float_formula_for_every_sample() {
    for s in 0..=u16::MAX {
        let expected = (s as f32 - 32768.0) / 32768.0;
        let got = center_unsigned(s) as f32 / FULL_SCALE as f32;
        assert_eq!(got.to_bits(), expected.to_bits(), "sample {}", s);
    }
    assert_eq!(center_unsigned(0) as f32 / 32768.0, -1.0);
    assert_eq!(center_unsigned(65535) as f32 / 32768.0, 32767.0 / 32768.0);
}

#[test]
fn signed_scaling_matches_the_float_formula_for_every_sample() {
    for s in i16::MIN..=i16::MAX {
        let expected = s as f32 / 32768.0;
        let got = scale_signed(s) as f32 / FULL_SCALE as f32;
        assert_eq!(got.to_bits(), expected.to_bits(), "sample {}", s);
    }
    assert_eq!(scale_signed(16384) as f32 / 32768.0, 0.5);
}

#[test]
fn batches_are_converted_sample_by_sample() {
    assert_eq!(center_unsigned_batch(&[0, 32768, 65535, 49152]), vec![-32768, 0, 32767, 16384]);
    assert_eq!(scale_signed_batch(&[-32768, 0, 7, 32767]), vec![-32768, 0, 7, 32767]);
    assert!(center_unsigned_batch(&[]).is_empty());
    assert!(scale_signed_batch(&[]).is_empty());
}

#[test]
fn only_three_formats_convert() {
    assert_eq!(SampleFormat::F32.conversion(), Some(Conversion::PassThrough));
    assert_eq!(SampleFormat::I16.conversion(), Some(Conversion::ScaleSigned));
    assert_eq!(SampleFormat::U16.conversion(), Some(Conversion::CenterUnsigned));
    for format in [
        SampleFormat::I8,
        SampleFormat::I32,
        SampleFormat::I64,
        SampleFormat::U8,
        SampleFormat::U32,
        SampleFormat::U64,
        SampleFormat::F64,
        SampleFormat::Other,
    ] {
        assert_eq!(format.conversion(), None);
    }
    assert_eq!(SampleFormat::I32.name(), "I32");
    assert_eq!(SampleFormat::F64.name(), "F64");
}

#[test]
fn latch_forwards_until_the_signal_is_seen() {
    let mut latch = StopLatch::new();
    assert_eq!(latch.on_signed(false, &[1, 2]), Some(vec![1, 2]));
    assert_eq!(latch.on_unsigned(false, &[32768]), Some(vec![0]));
    assert_eq!(latch.on_signed(true, &[3, 4]), None);
    assert!(latch.shut);
}

#[test]
fn latch_stays_shut_after_the_signal() {
    let mut latch = StopLatch::new();
    assert!(latch.may_forward(false));
    assert!(!latch.may_forward(true));
    for _ in 0..10 {
        assert!(!latch.may_forward(false));
        assert_eq!(latch.on_signed(false, &[5]), None);
        assert_eq!(latch.on_unsigned(false, &[5]), None);
    }
}

fn feed(rebatcher: &mut Rebatcher<u32>, items: std::ops::Range<u32>) -> Vec<Vec<u32>> {
    let mut sent = Vec::new();
    for item in items {
        assert_eq!(rebatcher.before_sample(false), ForwardStep::Poll);
        match rebatcher.on_sample(Some(item)) {
            ForwardStep::Poll => {}
            ForwardStep::Send(chunk) => {
                sent.push(chunk);
                assert_eq!(rebatcher.chunk_sent(true), ForwardStep::Poll);
            }
            step => panic!("unexpected {:?}", step),
        }
    }
    sent
}

#[test]
fn samples_leave_in_full_chunks_and_in_order() {
    let mut rebatcher: Rebatcher<u32> = Rebatcher::new();
    let sent = feed(&mut rebatcher, 0..2500);
    assert_eq!(sent.len(), 2);
    assert!(sent.iter().all(|chunk| chunk.len() == CHUNK_SIZE));
    let rest = match rebatcher.on_sample(None) {
        ForwardStep::Finish(Some(rest)) => rest,
        step => panic!("unexpected {:?}", step),
    };
    assert_eq!(rest.len(), 2500 - 2048);
    let mut all: Vec<u32> = sent.into_iter().flatten().collect();
    all.extend(rest);
    assert_eq!(all, (0..2500).collect::<Vec<u32>>());
}

#[test]
fn a_chunk_leaves_with_its_last_sample() {
    let mut rebatcher: Rebatcher<u32> = Rebatcher::new();
    assert!(feed(&mut rebatcher, 0..1023).is_empty());
    assert_eq!(rebatcher.buffer.len(), 1023);
    match rebatcher.on_sample(Some(1023)) {
        ForwardStep::Send(chunk) => assert_eq!(chunk, (0..1024).collect::<Vec<u32>>()),
        step => panic!("unexpected {:?}", step),
    }
    assert_eq!(rebatcher.chunk_sent(true), ForwardStep::Poll);
    assert!(rebatcher.buffer.is_empty());
    assert_eq!(rebatcher.on_sample(None), ForwardStep::Finish(None));
}

#[test]
fn a_seen_signal_ends_forwarding_with_a_flush() {
    let mut rebatcher: Rebatcher<u32> = Rebatcher::new();
    assert_eq!(rebatcher.before_sample(true), ForwardStep::Finish(None));
    feed(&mut rebatcher, 0..3);
    assert_eq!(rebatcher.before_sample(true), ForwardStep::Finish(Some(vec![0, 1, 2])));
}

#[test]
fn an_undelivered_chunk_ends_forwarding_and_is_tried_again() {
    let mut rebatcher: Rebatcher<u32> = Rebatcher::new();
    feed(&mut rebatcher, 0..1023);
    let chunk = match rebatcher.on_sample(Some(1023)) {
        ForwardStep::Send(chunk) => chunk,
        step => panic!("unexpected {:?}", step),
    };
    assert_eq!(rebatcher.chunk_sent(false), ForwardStep::Finish(Some(chunk)));
}
