use lingchat::audio::{encode_wav_pcm16, find_wav_data_chunk};
use lingchat::local_tts::url_encode_path;
use lingchat::registry::{catalog, static_subdir_files};

fn percent_decode(s: &str) -> Vec<u8> {
    let b = s.as_bytes();
    let mut out = Vec::new();
    let mut i = 0;
    while i < b.len() {
        if b[i] == b'%' && i + 2 < b.len() {
            let hex = std::str::from_utf8(&b[i + 1..i + 3]).unwrap();
            out.push(u8::from_str_radix(hex, 16).unwrap());
            i += 3;
        } else {
            out.push(b[i]);
            i += 1;
        }
    }
    out
}

#[test]
fn url_encoding_decodes_back_to_the_bytes() {
    for path in ["voices/!v/Mr serious", "中文/模型 1.onnx", "a%b", "plain/model.onnx", ""] {
        let e = url_encode_path(path);
        assert!(e.chars().all(|c| c.is_ascii_alphanumeric() || "-_.~/%".contains(c)));
        assert_eq!(percent_decode(&e), path.as_bytes());
    }
}

#[test]
fn encoded_wav_data_starts_after_the_header() {
    let pcm: Vec<u8> = (0u8..10).collect();
    let wav = encode_wav_pcm16(22050, &pcm).unwrap();
    assert_eq!(find_wav_data_chunk(&wav), Some(44));
    assert_eq!(&wav[44..], &pcm[..]);
}

#[test]
fn mirror_file_lists_stay_inside_their_directory() {
    let mut mirrored = 0;
    for e in catalog() {
        if e.modelscope_dir.is_some() {
            mirrored += 1;
            let files = static_subdir_files(&e.id).unwrap();
            assert!(!files.is_empty());
            for f in files {
                assert!(!f.is_empty() && !f.starts_with('/'));
                assert!(f.split('/').all(|seg| seg != ".."));
            }
        }
    }
    assert_eq!(mirrored, 4);
}
