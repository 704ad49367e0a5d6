use linglisten::wav::{encode_wav_pcm16, TRANSCRIPTION_SAMPLE_RATE, WAV_HEADER_LEN};

fn le32(b: &[u8], at: usize) -> u32 {
    u32::from_le_bytes([b[at], b[at + 1], b[at + 2], b[at + 3]])
}

fn le16(b: &[u8], at: usize) -> u16 {
    u16::from_le_bytes([b[at], b[at + 1]])
}

#[test]
fn empty_audio_is_a_bare_header() {
    let wav = encode_wav_pcm16(&[], TRANSCRIPTION_SAMPLE_RATE);
    assert_eq!(wav.len(), 44);
    assert_eq!(&wav[0..4], b"RIFF");
    assert_eq!(le32(&wav, 4), 36);
    assert_eq!(&wav[8..12], b"WAVE");
    assert_eq!(&wav[12..16], b"fmt ");
    assert_eq!(le32(&wav, 16), 16);
    assert_eq!(le16(&wav, 20), 1);
    assert_eq!(le16(&wav, 22), 1);
    assert_eq!(le32(&wav, 24), 16000);
    assert_eq!(le32(&wav, 28), 32000);
    assert_eq!(le16(&wav, 32), 2);
    assert_eq!(le16(&wav, 34), 16);
    assert_eq!(&wav[36..40], b"data");
    assert_eq!(le32(&wav, 40), 0);
}

#[test]
fn samples_follow_the_header_little_endian() {
    let samples: [i16; 4] = [0, 1, -1, 32767];
    let wav = encode_wav_pcm16(&samples, 16000);
    assert_eq!(wav.len(), WAV_HEADER_LEN + 8);
    assert_eq!(le32(&wav, 4), 36 + 8);
    assert_eq!(le32(&wav, 40), 8);
    assert_eq!(&wav[44..], &[0x00, 0x00, 0x01, 0x00, 0xff, 0xff, 0xff, 0x7f]);
}

#[test]
fn samples_can_be_read_back() {
    let samples: Vec<i16> = vec![-32768, -12345, 0, 42, 32767];
    let wav = encode_wav_pcm16(&samples, 8000);
    for (i, s) in samples.iter().enumerate() {
        let at = 44 + 2 * i;
        assert_eq!(i16::from_le_bytes([wav[at], wav[at + 1]]), *s);
    }
    assert_eq!(le32(&wav, 24), 8000);
    assert_eq!(le32(&wav, 28), 16000);
}

#[test]
fn matches_a_reference_encoding() {
    let samples: [i16; 2] = [256, -2];
    let wav = encode_wav_pcm16(&samples, 16000);
    let expected: Vec<u8> = vec![
        b'R', b'I', b'F', b'F', 40, 0, 0, 0, b'W', b'A', b'V', b'E', b'f', b'm', b't', b' ', 16, 0,
        0, 0, 1, 0, 1, 0, 0x80, 0x3e, 0, 0, 0x00, 0x7d, 0, 0, 2, 0, 16, 0, b'd', b'a', b't', b'a',
        4, 0, 0, 0, 0x00, 0x01, 0xfe, 0xff,
    ];
    assert_eq!(wav, expected);
}
