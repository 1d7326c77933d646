use antennabench_desktop::control_model::{AntennaControlDisposition, AntennaControlOutputEncoding};
use antennabench_desktop::process::{absorb_output, encode_output, process_disposition, CapturedBytes};

fn empty_capture() -> CapturedBytes {
    CapturedBytes { bytes: Vec::new(), truncated: false }
}

#[test]
fn binary_capture_is_kept_as_standard_base64() {
    let mut captured = empty_capture();
    absorb_output(&mut captured, &[0xde, 0xad, 0xbe, 0xef, 0xff], 64);
    let output = encode_output(captured);
    assert_eq!(output.encoding, AntennaControlOutputEncoding::Base64);
    assert_eq!(output.data, "3q2+7/8=");
    assert!(!output.truncated);
}

#[test]
fn text_capture_is_kept_as_utf8() {
    let mut captured = empty_capture();
    absorb_output(&mut captured, "switched to ä".as_bytes(), 64);
    let output = encode_output(captured);
    assert_eq!(output.encoding, AntennaControlOutputEncoding::Utf8);
    assert_eq!(output.data, "switched to ä");
    assert!(!output.truncated);
}

#[test]
fn flooded_capture_is_truncated_at_the_limit() {
    let mut captured = empty_capture();
    let flood = vec![b'x'; 100];
    absorb_output(&mut captured, &flood[..40], 64);
    assert_eq!(captured.bytes.len(), 40);
    assert!(!captured.truncated);
    absorb_output(&mut captured, &flood[40..], 64);
    assert_eq!(captured.bytes.len(), 64);
    assert!(captured.truncated);
    absorb_output(&mut captured, b"more", 64);
    assert_eq!(captured.bytes.len(), 64);
    assert!(captured.truncated);
    let output = encode_output(captured);
    assert_eq!(output.encoding, AntennaControlOutputEncoding::Utf8);
    assert_eq!(output.data, "x".repeat(64));
    assert!(output.truncated);
}

#[test]
fn timeout_and_cancellation_override_the_exit() {
    assert_eq!(process_disposition(true, true, Some(0), None), AntennaControlDisposition::Timeout);
    assert_eq!(
        process_disposition(false, true, Some(0), Some(15)),
        AntennaControlDisposition::Signaled { signal: Some(15) }
    );
    assert_eq!(process_disposition(false, false, Some(3), None), AntennaControlDisposition::Exit { code: 3 });
    assert_eq!(
        process_disposition(false, false, None, Some(9)),
        AntennaControlDisposition::Signaled { signal: Some(9) }
    );
}
