use lingchat::audio::{encode_wav_pcm16, find_wav_data_chunk, silence_wav, wav_header, PcmStream};
use lingchat::cloud::{api_key_configured, sample_language, sanitize_prefix, service_for_key, unix_seconds_str};

#[test]
fn encodes_standard_pcm16_wav() {
    let wav = encode_wav_pcm16(22_050, &[0, 0, 1, 0]).unwrap();
    assert_eq!(&wav[0..4], b"RIFF");
    assert_eq!(&wav[8..12], b"WAVE");
    assert_eq!(u32::from_le_bytes(wav[24..28].try_into().unwrap()), 22_050);
    assert_eq!(u32::from_le_bytes(wav[40..44].try_into().unwrap()), 4);
}

#[test]
fn wav_header_states_sizes_and_format() {
    let h = wav_header(16_000, 8);
    assert_eq!(h.len(), 44);
    assert_eq!(u32::from_le_bytes(h[4..8].try_into().unwrap()), 36 + 8);
    assert_eq!(&h[12..16], b"fmt ");
    assert_eq!(u16::from_le_bytes(h[22..24].try_into().unwrap()), 1);
    assert_eq!(u32::from_le_bytes(h[28..32].try_into().unwrap()), 32_000);
    assert_eq!(&h[36..40], b"data");
}

#[test]
fn odd_pcm_length_is_rejected() {
    assert!(encode_wav_pcm16(22_050, &[0, 0, 1]).is_err());
}

#[test]
fn data_chunk_is_found_after_the_header() {
    let wav = encode_wav_pcm16(22_050, &[0, 0, 1, 0]).unwrap();
    assert_eq!(find_wav_data_chunk(&wav), Some(44));
    assert_eq!(find_wav_data_chunk(b"RIFF"), None);
}

#[test]
fn sanitize_prefix_ascii_alnum_lowercased() {
    assert_eq!(sanitize_prefix("NuoYi123"), "nuoyi123");
}

#[test]
fn sanitize_prefix_truncates_at_10() {
    assert_eq!(sanitize_prefix("abcdefghijklmnop"), "abcdefghij");
}

#[test]
fn sanitize_prefix_filters_non_ascii() {
    assert_eq!(sanitize_prefix("诺一_One"), "one");
    assert_eq!(sanitize_prefix("诺一"), "voice");
    assert_eq!(sanitize_prefix(""), "voice");
}

#[test]
fn streamed_chunks_are_counted_into_the_final_header() {
    let mut stream = PcmStream::new();
    assert_eq!(stream.final_header(), Err("没有收到任何 PCM 分块".to_string()));
    assert!(stream.check_chunk(22_050, 4).is_ok());
    assert!(stream.count_bytes(4).is_ok());
    assert!(stream.check_chunk(22_050, 4).is_ok());
    assert!(stream.count_bytes(4).is_ok());
    let header = stream.final_header().unwrap();
    assert_eq!(&header[0..4], b"RIFF");
    assert_eq!(u32::from_le_bytes(header[24..28].try_into().unwrap()), 22_050);
    assert_eq!(u32::from_le_bytes(header[40..44].try_into().unwrap()), 8);
    assert_eq!(header, wav_header(22_050, 8));
}

#[test]
fn streamed_chunks_are_refused_as_the_writer_refuses_them() {
    let mut stream = PcmStream::new();
    assert_eq!(stream.check_chunk(0, 4), Err("流式 PCM 采样率不能为 0".to_string()));
    assert_eq!(stream.check_chunk(16_000, 0), Err("流式 PCM 分块为空或长度无效".to_string()));
    assert_eq!(stream.check_chunk(16_000, 3), Err("流式 PCM 分块为空或长度无效".to_string()));
    assert_eq!(stream.sample_rate, None);
    assert!(stream.check_chunk(16_000, 2).is_ok());
    assert_eq!(
        stream.check_chunk(22_050, 2),
        Err("流式 PCM 采样率发生变化: 16000 -> 22050".to_string())
    );
    let mut full = PcmStream { sample_rate: Some(16_000), pcm_bytes: u64::MAX - 1 };
    assert_eq!(full.count_bytes(2), Err("WAV 长度溢出".to_string()));
    assert_eq!(full.pcm_bytes, u64::MAX - 1);
    let big = PcmStream { sample_rate: Some(16_000), pcm_bytes: u32::MAX as u64 + 2 };
    assert_eq!(big.final_header(), Err("PCM 数据超过 WAV 4 GiB 上限".to_string()));
}

#[test]
fn cloud_voice_needs_a_key_and_defaults_the_language() {
    assert!(!api_key_configured(None));
    assert!(!api_key_configured(Some("   ")));
    assert!(api_key_configured(Some(" sk-1 ")));
    assert_eq!(
        service_for_key(Some(" ".to_string())).err(),
        Some("CosyVoice API Key 未配置，请在设置中填写".to_string())
    );
    assert!(service_for_key(None).is_err());
    assert_eq!(service_for_key(Some("sk-1".to_string())).unwrap().api_key(), "sk-1");
    assert_eq!(sample_language("  "), "zh");
    assert_eq!(sample_language(" en "), "en");
}

#[test]
fn silence_is_a_header_and_zero_samples() {
    let wav = silence_wav(16000);
    assert_eq!(wav.len(), 44 + 32000);
    assert_eq!(&wav[..44], &wav_header(16000, 32000)[..]);
    assert_eq!(u32::from_le_bytes(wav[28..32].try_into().unwrap()), 32000);
    assert!(wav[44..].iter().all(|b| *b == 0));
    assert_eq!(silence_wav(0), wav_header(16000, 0));
}

#[test]
fn unix_time_is_decimal_seconds() {
    let now = unix_seconds_str();
    assert!(now.chars().all(|c| c.is_ascii_digit()));
    assert!(now.parse::<u64>().unwrap() > 1_600_000_000);
}
