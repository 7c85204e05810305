use usrp::metadata::{RxMetadata, RxMetadataErrorCode, TxMetadata};
use usrp::rx_streamer::{RecvReply, RxStreamer, TeardownStep};
use usrp::stream::{
    rx_formats_supported, tx_formats_supported, SampleFormat, StreamCmd, StreamMode,
};
use usrp::time::TimeSpec;
use usrp::tx_streamer::{write_sample_count, ChunkRole, SendReply, TxStreamer};
use usrp::usrp::USRP;

fn rx_with_max(max_num_samps: usize, num_chans: usize) -> RxStreamer {
    let mut s = RxStreamer::new(num_chans).unwrap();
    s.record_max_num_samps(max_num_samps);
    s
}

fn ok_reply(items: usize, full_secs: i64) -> RecvReply {
    RecvReply {
        status: 0,
        items,
        error_code: RxMetadataErrorCode::NoError,
        time: TimeSpec::new(full_secs, 0),
        deadline_elapsed: false,
    }
}

#[test]
fn receive_fills_whole_buffer_across_chunks() {
    let mut s = rx_with_max(100, 1);
    let replies = vec![ok_reply(100, 5), ok_reply(100, 6), ok_reply(50, 7)];
    let (count, time) = s.read_sc16(250, false, &replies).unwrap();
    assert_eq!(250, count);
    // The timestamp is the first sub-call's, not a later one.
    assert_eq!(TimeSpec::new(5, 0), time);
}

#[test]
fn receive_returns_first_subcall_timestamp() {
    let mut s = rx_with_max(10, 1);
    let replies = vec![ok_reply(10, 41), ok_reply(10, 42)];
    let (count, time) = s.read_sc16(20, false, &replies).unwrap();
    assert_eq!(20, count);
    assert_eq!(41, time.full_secs);
}

#[test]
fn receive_with_deadline_returns_short_count() {
    let mut s = rx_with_max(100, 1);
    let mut second = ok_reply(100, 6);
    second.deadline_elapsed = true;
    let replies = vec![ok_reply(100, 5), second, ok_reply(50, 7)];
    let (count, time) = s.read_sc16(250, true, &replies).unwrap();
    assert_eq!(200, count);
    assert!(count <= 250);
    assert_eq!(5, time.full_secs);
}

#[test]
fn receive_without_deadline_ignores_elapsed_flag() {
    let mut s = rx_with_max(100, 1);
    let mut second = ok_reply(100, 6);
    second.deadline_elapsed = true;
    let replies = vec![ok_reply(100, 5), second, ok_reply(50, 7)];
    let (count, _) = s.read_sc16(250, false, &replies).unwrap();
    assert_eq!(250, count);
}

#[test]
fn receive_aborts_on_native_failure() {
    let mut s = rx_with_max(100, 1);
    let mut bad = ok_reply(0, 6);
    bad.status = 11;
    let replies = vec![ok_reply(100, 5), bad, ok_reply(100, 7)];
    assert_eq!(
        Err("Failed return value check"),
        s.read_sc16(300, false, &replies)
    );
}

#[test]
fn receive_requires_single_channel() {
    let mut s = rx_with_max(100, 2);
    let replies = vec![ok_reply(100, 5)];
    assert_eq!(
        Err("RxStreamer::read_sc16 only works with one channel"),
        s.read_sc16(100, false, &replies)
    );
}

#[test]
fn receive_empty_request_completes_immediately() {
    let mut s = rx_with_max(100, 1);
    let replies: Vec<RecvReply> = Vec::new();
    let (count, time) = s.read_sc16(0, false, &replies).unwrap();
    assert_eq!(0, count);
    assert_eq!(TimeSpec::zero(), time);
}

#[test]
fn metadata_classification_over_all_codes() {
    let codes = [
        (RxMetadataErrorCode::NoError, true),
        (RxMetadataErrorCode::Timeout, false),
        (RxMetadataErrorCode::LateCommand, false),
        (RxMetadataErrorCode::BrokenChain, false),
        (RxMetadataErrorCode::Overflow, true),
        (RxMetadataErrorCode::Alignment, false),
        (RxMetadataErrorCode::BadPacket, false),
    ];
    for (code, tolerated) in codes {
        let mut s = rx_with_max(10, 1);
        s.rx_metadata = RxMetadata {
            error_code: code,
            time: TimeSpec::zero(),
        };
        let before = s.overflow_count;
        let verdict = s.rx_metadata_ok();
        assert_eq!(tolerated, verdict.is_ok(), "code {:?}", code);
        if code == RxMetadataErrorCode::Overflow {
            assert_eq!(before + 1, s.overflow_count);
        } else {
            assert_eq!(before, s.overflow_count);
        }
    }
}

#[test]
fn multi_channel_receive_rejects_wrong_buffer_count() {
    let s = rx_with_max(100, 3);
    assert_eq!(
        Err("Number of buffers needs to match the number of channels"),
        s.recv_one_multi_chan_request(&vec![64, 64])
    );
    assert_eq!(Ok(80), s.recv_one_multi_chan_request(&vec![64, 80, 32]));
}

#[test]
fn multi_channel_receive_completion() {
    let mut s = rx_with_max(100, 2);
    let reply = RecvReply {
        status: 0,
        items: 48,
        error_code: RxMetadataErrorCode::Overflow,
        time: TimeSpec::new(9, 1),
        deadline_elapsed: false,
    };
    let (count, time) = s.recv_one_multi_chan_complete(&reply).unwrap();
    assert_eq!(48, count);
    assert_eq!(9, time.full_secs);
    assert_eq!(RxMetadataErrorCode::Overflow, s.rx_metadata.error_code);
}

#[test]
fn teardown_issues_stop_before_release() {
    let plan = RxStreamer::teardown_plan();
    let mut log: Vec<&str> = Vec::new();
    for step in &plan {
        match step {
            TeardownStep::IssueStreamCmd { cmd } => {
                assert_eq!(StreamMode::StopContinuous, cmd.stream_mode);
                assert!(cmd.stream_now);
                log.push("stop");
            }
            TeardownStep::ReleaseHandle => log.push("free"),
        }
    }
    assert_eq!(vec!["stop", "free"], log);
}

#[test]
fn stream_commands() {
    let start = StreamCmd::start_continuous_now();
    assert_eq!(StreamMode::StartContinuous, start.stream_mode);
    assert!(start.stream_now);
    assert_eq!(0, start.num_samps);

    let stop = StreamCmd::stop_continuous_now();
    assert_eq!(StreamMode::StopContinuous, stop.stream_mode);
    assert!(stop.stream_now);

    let mut s = rx_with_max(10, 1);
    s.stream(&start).unwrap();
    assert!(s.streaming);
    s.stream(&stop).unwrap();
    assert!(!s.streaming);
}

fn tx_with_max(max_num_samps: usize) -> TxStreamer {
    let mut s = TxStreamer::new(1).unwrap();
    s.record_max_num_samps(max_num_samps);
    s
}

fn sent(items: usize) -> SendReply {
    SendReply { status: 0, items }
}

#[test]
fn send_splits_into_ceil_len_over_max_chunks() {
    let s = tx_with_max(4);
    let replies = vec![sent(4), sent(4), sent(2)];
    let (count, mds) = s
        .single_coherent_pulse(10, Some(TimeSpec::new(100, 0)), &replies)
        .unwrap();
    assert_eq!(10, count);
    // ceil(10 / 4) native calls.
    assert_eq!(3, mds.len());
    // First call: start-of-burst with the scheduled time.
    assert!(mds[0].start_of_burst);
    assert!(mds[0].has_time_spec);
    assert_eq!(100, mds[0].time.full_secs);
    assert!(!mds[0].end_of_burst);
    // Middle call: no flags.
    assert!(!mds[1].start_of_burst);
    assert!(!mds[1].end_of_burst);
    assert!(!mds[1].has_time_spec);
    // Last call: end-of-burst, distinct from the first.
    assert!(mds[2].end_of_burst);
    assert!(!mds[2].start_of_burst);
    assert_ne!(mds[0], mds[2]);
}

#[test]
fn send_single_chunk_carries_opening_descriptor() {
    let s = tx_with_max(16);
    let replies = vec![sent(10)];
    let (count, mds) = s.single_coherent_pulse(10, None, &replies).unwrap();
    assert_eq!(10, count);
    assert_eq!(1, mds.len());
    assert!(mds[0].start_of_burst);
    assert!(!mds[0].end_of_burst);
    assert!(!mds[0].has_time_spec);
}

#[test]
fn coherent_phases_choose_descriptors() {
    let s = tx_with_max(4);
    let replies = vec![sent(4), sent(4)];

    let (_, start_mds) = s
        .start_coherent(8, Some(TimeSpec::new(7, 0)), &replies)
        .unwrap();
    assert!(start_mds[0].start_of_burst);
    // No end-of-burst until the burst is completed.
    assert!(start_mds.iter().all(|m| !m.end_of_burst));

    let (_, cont_mds) = s.continue_coherent(8, &replies).unwrap();
    assert!(cont_mds
        .iter()
        .all(|m| !m.start_of_burst && !m.end_of_burst && !m.has_time_spec));

    let (_, end_mds) = s.complete_coherent(8, &replies).unwrap();
    assert!(!end_mds[0].start_of_burst);
    assert!(end_mds[1].end_of_burst);
}

#[test]
fn send_aborts_on_native_failure() {
    let s = tx_with_max(4);
    let replies = vec![sent(4), SendReply { status: 43, items: 0 }];
    assert_eq!(
        Err("Failed return value check"),
        s.continue_coherent(8, &replies)
    );
}

#[test]
fn send_advances_by_accepted_count() {
    // The driver may accept fewer samples than requested; the send keeps
    // going until the whole buffer is through.
    let s = tx_with_max(4);
    let replies = vec![sent(2), sent(2), sent(4), sent(2)];
    let (count, mds) = s.complete_coherent(10, &replies).unwrap();
    assert_eq!(10, count);
    assert_eq!(4, mds.len());
}

#[test]
fn chunk_roles() {
    let s = tx_with_max(4);
    assert_eq!(ChunkRole::First, s.chunk_role(10, 0));
    assert_eq!(ChunkRole::Middle, s.chunk_role(10, 4));
    assert_eq!(ChunkRole::Last, s.chunk_role(10, 8));
    assert_eq!(4, s.next_request_size(10, 0));
    assert_eq!(2, s.next_request_size(10, 8));
}

#[test]
fn write_byte_counts_must_be_whole_samples() {
    assert_eq!(Ok(0), write_sample_count(0));
    assert_eq!(Ok(3), write_sample_count(12));
    assert_eq!(Err("Wrong sized input for write()"), write_sample_count(13));
}

#[test]
fn transfers_reject_overdelivering_driver() {
    let mut rx = rx_with_max(4, 1);
    let replies = vec![ok_reply(5, 1)];
    assert_eq!(
        Err("Native call returned more samples than requested"),
        rx.read_sc16(10, false, &replies)
    );

    let tx = tx_with_max(4);
    let replies = vec![sent(5)];
    assert_eq!(
        Err("Native call sent more samples than requested"),
        tx.continue_coherent(10, &replies)
    );
}

#[test]
fn transfers_report_starved_transcripts() {
    let mut rx = rx_with_max(4, 1);
    let replies = vec![ok_reply(4, 1)];
    assert_eq!(
        Err("Receive ended before the buffer was filled"),
        rx.read_sc16(10, false, &replies)
    );

    let tx = tx_with_max(4);
    assert_eq!(
        Err("Send ended before the whole buffer was sent"),
        tx.continue_coherent(10, &vec![sent(4)])
    );
}

#[test]
fn tx_streamer_rejects_multiple_channels() {
    assert!(TxStreamer::new(2).is_err());
    assert!(TxStreamer::new(1).is_ok());
}

#[test]
fn tx_metadata_accessors() {
    let md = TxMetadata::new(Some(TimeSpec::new(3, 9)), true, false).unwrap();
    assert_eq!(true, md.has_time_spec().unwrap());
    assert_eq!(TimeSpec::new(3, 9), md.time_spec().unwrap());

    let plain = TxMetadata::new(None, false, true).unwrap();
    assert_eq!(false, plain.has_time_spec().unwrap());
    assert_eq!(TimeSpec::zero(), plain.time_spec().unwrap());
    assert!(plain.end_of_burst);
}

#[test]
fn streamer_factories_validate_formats() {
    let dev = USRP::new();

    // Unsupported wire format: rejected before anything native would exist.
    let e = dev.get_tx_stream(SampleFormat::Sc16, SampleFormat::Fc32, String::new());
    assert_eq!(Err("Unsupported type for wire format"), e.map(|_| ()));

    // Supported pairs.
    assert!(tx_formats_supported(SampleFormat::Sc16, SampleFormat::Sc16));
    assert!(tx_formats_supported(SampleFormat::Fc32, SampleFormat::Sc16));
    assert!(!tx_formats_supported(SampleFormat::Sc16, SampleFormat::Fc32));
    assert!(!tx_formats_supported(SampleFormat::Fc32, SampleFormat::Fc32));
    assert!(rx_formats_supported(SampleFormat::Sc16, SampleFormat::Sc16));
    assert!(!rx_formats_supported(SampleFormat::Fc32, SampleFormat::Sc16));

    let (args, streamer) = dev
        .get_tx_stream(SampleFormat::Fc32, SampleFormat::Sc16, String::from("a=b"))
        .unwrap();
    assert_eq!(SampleFormat::Fc32, args.cpu_format);
    assert_eq!(SampleFormat::Sc16, args.otw_format);
    assert_eq!("a=b", args.args);
    assert_eq!(vec![0usize], args.channels);
    assert_eq!(0, streamer.get_max_num_samps());

    let (rx_args, rx) = dev.get_rx_stream(String::new()).unwrap();
    assert_eq!(SampleFormat::Sc16, rx_args.cpu_format);
    assert_eq!(SampleFormat::Sc16, rx_args.otw_format);
    assert_eq!(1, rx.num_chans);
}

#[test]
fn facade_cache_skips_repeated_commands() {
    let mut dev = USRP::new();
    assert!(dev.set_rx_rate(2_000_000_000, 0));
    assert!(!dev.set_rx_rate(2_000_000_000, 0));
    assert!(dev.set_rx_rate(1_000_000_000, 0));

    assert!(dev.set_rx_gain(30_000, 0, ""));
    assert!(!dev.set_rx_gain(30_000, 0, ""));

    assert!(dev.set_rx_bandwidth(5_000_000_000, 0));
    assert!(!dev.set_rx_bandwidth(5_000_000_000, 0));
    assert!(dev.set_rx_bandwidth(6_000_000_000, 0));
}
