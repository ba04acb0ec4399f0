//! Protocol discipline: one transport attempt per poll call, the
//! write-zero rule at every split point, output equal under any
//! fragmentation, and the length oracle exact in every reachable state.

use async_codec::AsyncDecode;
use async_codec::AsyncEncode;
use async_codec::AsyncEncodeLen;
use async_codec::BoolDecoder;
use async_codec::ChainDecoder;
use async_codec::ChainEncoder;
use async_codec::drive_encode;
use async_codec::DecodeError;
use async_codec::DriveOutcome;
use async_codec::EncodeError;
use async_codec::PollDec;
use async_codec::PollEnc;
use async_codec::PrefixedDecoder;
use async_codec::ScriptedSink;
use async_codec::ScriptedSource;
use async_codec::SinkStep;
use async_codec::SourceStep;
use async_codec::TransportError;
use async_codec::U16LeEncoder;
use async_codec::WakeContext;

#[test]
fn one_write_attempt_per_encode_poll() {
    let mut cx = WakeContext { token: 0 };
    let script = vec![SinkStep::Block, SinkStep::Accept(1), SinkStep::Accept(1)];
    let mut sink = ScriptedSink::new(script);
    let enc = U16LeEncoder::new(0xBEEF);

    assert_eq!(sink.attempt_count(), 0);
    let e1 = match enc.poll_encode(&mut cx, &mut sink) {
        PollEnc::Pending(e) => e,
        _ => panic!("expected a suspension"),
    };
    assert_eq!(sink.attempt_count(), 1);
    let e2 = match e1.poll_encode(&mut cx, &mut sink) {
        PollEnc::Progress(e, _) => e,
        _ => panic!("expected progress"),
    };
    assert_eq!(sink.attempt_count(), 2);
    match e2.poll_encode(&mut cx, &mut sink) {
        PollEnc::Done(_) => {},
        _ => panic!("expected completion"),
    }
    assert_eq!(sink.attempt_count(), 3);
}

#[test]
fn one_read_attempt_per_decode_poll() {
    let mut cx = WakeContext { token: 0 };
    let script = vec![
        SourceStep::Block,
        SourceStep::Deliver(vec![0x01]),
        SourceStep::Deliver(vec![0x7F]),
    ];
    let mut src = ScriptedSource::new(script);
    let dec = PrefixedDecoder::new();

    assert_eq!(src.steps_left(), 3);
    let d1 = match dec.poll_decode(&mut cx, &mut src) {
        PollDec::Pending(d) => d,
        _ => panic!("expected a suspension"),
    };
    assert_eq!(src.steps_left(), 2);
    let d2 = match d1.poll_decode(&mut cx, &mut src) {
        PollDec::Progress(d, _) => d,
        _ => panic!("expected progress"),
    };
    assert_eq!(src.steps_left(), 1);
    match d2.poll_decode(&mut cx, &mut src) {
        PollDec::Done(v, _) => assert_eq!(v, vec![0x7F]),
        _ => panic!("expected completion"),
    }
    assert_eq!(src.steps_left(), 0);
}

#[test]
fn write_zero_fails_at_every_split_point() {
    // Split point 0: nothing written yet.
    let mut cx = WakeContext { token: 0 };
    let mut sink = ScriptedSink::new(vec![SinkStep::Accept(0)]);
    match U16LeEncoder::new(300).poll_encode(&mut cx, &mut sink) {
        PollEnc::Errored(EncodeError::WriteZero) => {},
        _ => panic!("zero accepted bytes with data pending must fail"),
    }

    // Split point 1: one of the two bytes already written.
    let mut sink = ScriptedSink::new(vec![SinkStep::Accept(1), SinkStep::Accept(0)]);
    let e1 = match U16LeEncoder::new(300).poll_encode(&mut cx, &mut sink) {
        PollEnc::Progress(e, _) => e,
        _ => panic!("expected progress"),
    };
    match e1.poll_encode(&mut cx, &mut sink) {
        PollEnc::Errored(EncodeError::WriteZero) => {},
        _ => panic!("zero accepted bytes with data pending must fail"),
    }
    assert_eq!(sink.received_bytes().as_slice(), &[0x2c]);
}

#[test]
fn fragmented_encode_equals_one_shot_encode() {
    let mut cx = WakeContext { token: 0 };

    let mut eager = ScriptedSink::new(vec![SinkStep::Accept(2)]);
    match U16LeEncoder::new(0xABCD).poll_encode(&mut cx, &mut eager) {
        PollEnc::Done(n) => assert_eq!(n, 2),
        _ => panic!("expected completion"),
    }

    let script = vec![
        SinkStep::Accept(1),
        SinkStep::Block,
        SinkStep::Block,
        SinkStep::Accept(1),
    ];
    let mut slow = ScriptedSink::new(script);
    let mut state = Some(U16LeEncoder::new(0xABCD));
    let mut done = false;
    while let Some(enc) = state.take() {
        match enc.poll_encode(&mut cx, &mut slow) {
            PollEnc::Progress(e, _) => state = Some(e),
            PollEnc::Pending(e) => state = Some(e),
            PollEnc::Done(_) => done = true,
            PollEnc::Errored(_) => panic!("no failure was scripted"),
        }
    }
    assert!(done);
    assert_eq!(eager.received_bytes(), slow.received_bytes());
}

#[test]
fn fragmented_decode_equals_one_shot_decode() {
    let mut cx = WakeContext { token: 0 };

    let mut eager = ScriptedSource::new(vec![SourceStep::Deliver(vec![3, 9, 8, 7])]);
    let one_shot = {
        let d1 = match PrefixedDecoder::new().poll_decode(&mut cx, &mut eager) {
            PollDec::Progress(d, _) => d,
            _ => panic!("expected progress"),
        };
        match d1.poll_decode(&mut cx, &mut eager) {
            PollDec::Done(v, _) => v,
            _ => panic!("expected completion"),
        }
    };

    let script = vec![
        SourceStep::Deliver(vec![3]),
        SourceStep::Block,
        SourceStep::Deliver(vec![9]),
        SourceStep::Deliver(vec![8]),
        SourceStep::Block,
        SourceStep::Deliver(vec![7]),
    ];
    let mut slow = ScriptedSource::new(script);
    let mut state = Some(PrefixedDecoder::new());
    let mut decoded = None;
    while let Some(dec) = state.take() {
        match dec.poll_decode(&mut cx, &mut slow) {
            PollDec::Progress(d, _) => state = Some(d),
            PollDec::Pending(d) => state = Some(d),
            PollDec::Done(v, _) => decoded = Some(v),
            PollDec::Errored(_) => panic!("no failure was scripted"),
        }
    }
    assert_eq!(decoded.as_ref(), Some(&one_shot));
    assert_eq!(one_shot, vec![9, 8, 7]);
}

#[test]
fn length_oracle_is_exact_in_every_reachable_state() {
    let mut cx = WakeContext { token: 0 };
    let enc = U16LeEncoder::new(300);
    assert_eq!(enc.remaining_bytes(), 2);

    let mut sink = ScriptedSink::new(vec![SinkStep::Block, SinkStep::Accept(1)]);
    let e1 = match enc.poll_encode(&mut cx, &mut sink) {
        PollEnc::Pending(e) => e,
        _ => panic!("expected a suspension"),
    };
    // Suspension moves no bytes: the oracle must not move either.
    assert_eq!(e1.remaining_bytes(), 2);
    let e2 = match e1.poll_encode(&mut cx, &mut sink) {
        PollEnc::Progress(e, n) => {
            assert_eq!(n, 1);
            e
        },
        _ => panic!("expected progress"),
    };
    // One byte written: the oracle reports total minus one.
    assert_eq!(e2.remaining_bytes(), 1);
    // Repeated calls between polls are free of side effects.
    assert_eq!(e2.remaining_bytes(), 1);
}

#[test]
fn chain_delegates_one_attempt_per_poll_in_field_order() {
    let mut cx = WakeContext { token: 0 };
    let script = vec![
        SinkStep::Accept(1),
        SinkStep::Accept(1),
        SinkStep::Block,
        SinkStep::Accept(2),
    ];
    let mut sink = ScriptedSink::new(script);
    let chain = ChainEncoder::new(U16LeEncoder::new(0x0102), U16LeEncoder::new(0x0304));

    let mut state = Some(chain);
    let mut polls: usize = 0;
    let mut done_bytes = None;
    while let Some(enc) = state.take() {
        polls += 1;
        match enc.poll_encode(&mut cx, &mut sink) {
            PollEnc::Progress(e, _) => state = Some(e),
            PollEnc::Pending(e) => state = Some(e),
            PollEnc::Done(n) => done_bytes = Some(n),
            PollEnc::Errored(_) => panic!("no failure was scripted"),
        }
    }
    // First field little-endian, then second field: deterministic order.
    assert_eq!(sink.received_bytes().as_slice(), &[0x02, 0x01, 0x04, 0x03]);
    assert_eq!(done_bytes, Some(2));
    assert_eq!(polls, 4);
    assert_eq!(sink.attempt_count(), 4);
}

#[test]
fn chain_forwards_failures_of_the_active_part() {
    let mut cx = WakeContext { token: 0 };
    let fault = TransportError { code: 42 };
    let mut sink = ScriptedSink::new(vec![SinkStep::Fail(fault)]);
    let chain = ChainEncoder::new(U16LeEncoder::new(1), U16LeEncoder::new(2));
    match chain.poll_encode(&mut cx, &mut sink) {
        PollEnc::Errored(EncodeError::WriterError(e)) => assert_eq!(e, fault),
        _ => panic!("the sink fault must be carried over unchanged"),
    }
}

#[test]
fn bool_decoder_accepts_zero_and_one_only() {
    let mut cx = WakeContext { token: 0 };

    let mut src = ScriptedSource::new(vec![SourceStep::Deliver(vec![0])]);
    match BoolDecoder::new().poll_decode(&mut cx, &mut src) {
        PollDec::Done(v, n) => {
            assert!(!v);
            assert_eq!(n, 1);
        },
        _ => panic!("zero must decode to false"),
    }

    let mut src = ScriptedSource::new(vec![SourceStep::Deliver(vec![1])]);
    match BoolDecoder::new().poll_decode(&mut cx, &mut src) {
        PollDec::Done(v, n) => {
            assert!(v);
            assert_eq!(n, 1);
        },
        _ => panic!("one must decode to true"),
    }

    let mut src = ScriptedSource::new(vec![SourceStep::Deliver(vec![2])]);
    match BoolDecoder::new().poll_decode(&mut cx, &mut src) {
        PollDec::Errored(DecodeError::DataError(b)) => assert_eq!(b, 2),
        _ => panic!("any other byte is a data error carrying the byte"),
    }
}

#[test]
fn transport_faults_keep_their_identity() {
    let mut cx = WakeContext { token: 0 };
    let fault = TransportError { code: 7 };

    let mut src = ScriptedSource::new(vec![SourceStep::Fail(fault)]);
    match PrefixedDecoder::new().poll_decode(&mut cx, &mut src) {
        PollDec::Errored(DecodeError::ReaderError(e)) => assert_eq!(e.code, 7),
        _ => panic!("a source fault must come back as a reader error"),
    }

    let err: DecodeError<u8> = DecodeError::from(fault);
    assert_eq!(err, DecodeError::ReaderError(fault));
    assert!(err.is_transport_origin());
    assert!(!DecodeError::<u8>::UnexpectedEndOfInput.is_transport_origin());
}

#[test]
fn error_descriptions_name_the_kind() {
    assert_eq!(EncodeError::WriteZero.describe(), "sink accepted zero bytes");
    assert_eq!(
        EncodeError::WriterError(TransportError { code: 1 }).describe(),
        "encode writer error"
    );
    assert_eq!(
        DecodeError::<u8>::ReaderError(TransportError { code: 1 }).describe(),
        "decode reader error"
    );
    assert_eq!(
        DecodeError::<u8>::UnexpectedEndOfInput.describe(),
        "unexpected end of input"
    );
    assert_eq!(DecodeError::DataError(9u8).describe(), "decode data error");
}

#[test]
fn finished_encoder_confirms_without_touching_the_sink() {
    let mut cx = WakeContext { token: 0 };
    let mut sink = ScriptedSink::new(vec![SinkStep::Accept(2)]);
    let spent = U16LeEncoder { value: 300, written: 2 };
    match spent.poll_encode(&mut cx, &mut sink) {
        PollEnc::Done(n) => assert_eq!(n, 0),
        _ => panic!("a finished operation confirms with zero bytes"),
    }
    assert_eq!(sink.attempt_count(), 0);
    assert_eq!(sink.received_bytes().len(), 0);
}

#[test]
fn empty_prefixed_string_completes_on_the_length_byte() {
    let mut cx = WakeContext { token: 0 };
    let mut src = ScriptedSource::new(vec![SourceStep::Deliver(vec![0])]);
    match PrefixedDecoder::new().poll_decode(&mut cx, &mut src) {
        PollDec::Done(v, n) => {
            assert_eq!(v, Vec::<u8>::new());
            assert_eq!(n, 1);
        },
        _ => panic!("a zero length byte is a complete empty string"),
    }
}

#[test]
fn chained_decode_yields_both_values_in_order() {
    let mut cx = WakeContext { token: 0 };
    // A boolean byte, then a length-prefixed string, fragmented across
    // deliveries and suspensions.
    let script = vec![
        SourceStep::Deliver(vec![1]),
        SourceStep::Block,
        SourceStep::Deliver(vec![2]),
        SourceStep::Deliver(vec![b'o']),
        SourceStep::Deliver(vec![b'k']),
    ];
    let mut src = ScriptedSource::new(script);
    let chain = ChainDecoder::new(BoolDecoder::new(), PrefixedDecoder::new());

    let mut state = Some(chain);
    let mut decoded = None;
    while let Some(dec) = state.take() {
        match dec.poll_decode(&mut cx, &mut src) {
            PollDec::Progress(d, _) => state = Some(d),
            PollDec::Pending(d) => state = Some(d),
            PollDec::Done(vw, n) => {
                assert_eq!(n, 1);
                decoded = Some(vw);
            },
            PollDec::Errored(_) => panic!("no failure was scripted"),
        }
    }
    let (flag, text) = decoded.expect("the chain should complete");
    assert!(flag);
    assert_eq!(text, b"ok".to_vec());
    assert_eq!(src.delivered_bytes().as_slice(), &[1, 2, b'o', b'k']);
}

#[test]
fn chained_decode_keeps_data_errors_apart_from_transport_faults() {
    let mut cx = WakeContext { token: 0 };
    let mut src = ScriptedSource::new(vec![SourceStep::Deliver(vec![9])]);
    let chain = ChainDecoder::new(BoolDecoder::new(), PrefixedDecoder::new());
    match chain.poll_decode(&mut cx, &mut src) {
        PollDec::Errored(DecodeError::DataError(b)) => assert_eq!(b, 9),
        _ => panic!("an invalid boolean byte is a data error"),
    }
}

#[test]
fn driver_finishes_whatever_the_fragmentation() {
    let mut cx = WakeContext { token: 0 };
    let script = vec![
        SinkStep::Block,
        SinkStep::Accept(1),
        SinkStep::Block,
        SinkStep::Accept(3),
        SinkStep::Accept(8),
    ];
    let mut sink = ScriptedSink::new(script);
    let chain = ChainEncoder::new(U16LeEncoder::new(0x1122), U16LeEncoder::new(0x3344));
    match drive_encode(chain, &mut cx, &mut sink, 5) {
        DriveOutcome::Finished => {},
        _ => panic!("the script accepts everything eventually"),
    }
    assert_eq!(sink.received_bytes().as_slice(), &[0x22, 0x11, 0x44, 0x33]);
}

#[test]
fn driver_hands_back_a_stalled_operation() {
    let mut cx = WakeContext { token: 0 };
    let script = vec![SinkStep::Accept(1), SinkStep::Block];
    let mut sink = ScriptedSink::new(script);
    match drive_encode(U16LeEncoder::new(300), &mut cx, &mut sink, 2) {
        DriveOutcome::Stalled(enc) => {
            // The continuation resumes exactly after the written prefix.
            let mut rest = ScriptedSink::new(vec![SinkStep::Accept(1)]);
            match drive_encode(enc, &mut cx, &mut rest, 1) {
                DriveOutcome::Finished => {},
                _ => panic!("one more accepted byte finishes the field"),
            }
            assert_eq!(rest.received_bytes().as_slice(), &[0x01]);
        },
        _ => panic!("two attempts cannot finish against this script"),
    }
    assert_eq!(sink.received_bytes().as_slice(), &[0x2c]);
}

#[test]
fn driver_stops_at_the_first_failure() {
    let mut cx = WakeContext { token: 0 };
    let script = vec![
        SinkStep::Accept(1),
        SinkStep::Fail(TransportError { code: 13 }),
        SinkStep::Accept(1),
    ];
    let mut sink = ScriptedSink::new(script);
    match drive_encode(U16LeEncoder::new(300), &mut cx, &mut sink, 3) {
        DriveOutcome::Failed(EncodeError::WriterError(e)) => assert_eq!(e.code, 13),
        _ => panic!("the scripted fault must end the run"),
    }
    // Only the prefix written before the fault reached the sink.
    assert_eq!(sink.received_bytes().as_slice(), &[0x2c]);
    assert_eq!(sink.attempt_count(), 2);
}
