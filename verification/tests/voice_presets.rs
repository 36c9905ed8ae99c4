use lingchat::voices::{
    check_preset_deletion, check_voice_upload, list_presets, validate_voice_bytes,
    validate_voice_file_name, voice_extension, voice_for_speaker, IndexTtsVoicePreset,
};

#[test]
fn voice_upload_validation_rejects_unsafe_or_disguised_files() {
    assert!(validate_voice_file_name("../escape.wav").is_err());
    assert!(validate_voice_file_name("voice.exe").is_err());
    assert!(validate_voice_bytes("wav", b"not a wave file").is_err());

    let mut minimal_wav = Vec::from(&b"RIFF0000WAVE"[..]);
    minimal_wav.extend_from_slice(b"fmt ");
    assert!(validate_voice_bytes("wav", &minimal_wav).is_ok());
}

#[test]
fn voice_names_are_trimmed_bare_files_of_a_voice_format() {
    assert_eq!(validate_voice_file_name("  Alice.WAV ").unwrap(), "Alice.WAV");
    assert_eq!(
        validate_voice_file_name("").unwrap_err(),
        "音色文件名无效，仅支持 wav/mp3/flac/ogg 文件"
    );
    assert_eq!(voice_extension("a.FLAC").as_deref(), Some("flac"));
    assert_eq!(voice_extension("a.m4a"), None);
}

#[test]
fn voice_bytes_are_checked_against_their_format() {
    assert_eq!(validate_voice_bytes("mp3", b"").unwrap_err(), "音色文件为空");
    assert!(validate_voice_bytes("mp3", b"ID3\x04").is_ok());
    assert!(validate_voice_bytes("mp3", &[0xff, 0xfb, 0x90]).is_ok());
    assert!(validate_voice_bytes("mp3", &[0xff, 0x1b]).is_err());
    assert!(validate_voice_bytes("flac", b"fLaC....").is_ok());
    assert!(validate_voice_bytes("ogg", b"OggS....").is_ok());
    assert_eq!(validate_voice_bytes("ogg", b"RIFF").unwrap_err(), "文件内容不是有效的 ogg 音频");
    let (name, ext) = check_voice_upload(" v.Ogg ", b"OggS").unwrap();
    assert_eq!((name.as_str(), ext.as_str()), ("v.Ogg", "ogg"));
}

#[test]
fn presets_are_listed_by_name_ignoring_case() {
    let presets = list_presets(vec![
        ("b.wav".to_string(), 2),
        ("A.wav".to_string(), 1),
        ("c.mp3".to_string(), 3),
    ]);
    let names: Vec<&str> = presets.iter().map(|p| p.file_name.as_str()).collect();
    assert_eq!(names, vec!["A.wav", "b.wav", "c.mp3"]);
    assert_eq!(presets[1].id, 1);
    assert_eq!(presets[0].size, 1);
}

#[test]
fn the_last_preset_cannot_be_deleted() {
    let one = vec![IndexTtsVoicePreset { id: 0, file_name: "a.wav".into(), size: 1 }];
    assert_eq!(
        check_preset_deletion(&one, "a.wav").unwrap_err(),
        "至少需要保留一个音色预设，无法删除最后一个音色"
    );
    let two = vec![
        IndexTtsVoicePreset { id: 0, file_name: "a.wav".into(), size: 1 },
        IndexTtsVoicePreset { id: 1, file_name: "b.wav".into(), size: 1 },
    ];
    assert!(check_preset_deletion(&two, "b.wav").is_ok());
    assert_eq!(check_preset_deletion(&two, "c.wav").unwrap_err(), "音色文件不存在: c.wav");
}

#[test]
fn speaker_ids_select_a_preset_or_the_first() {
    let presets = list_presets(vec![("b.wav".to_string(), 2), ("A.mp3".to_string(), 1), ("c.ogg".to_string(), 3)]);
    assert_eq!(voice_for_speaker(&presets, 0).unwrap(), "A.mp3");
    assert_eq!(voice_for_speaker(&presets, 2).unwrap(), "c.ogg");
    assert_eq!(voice_for_speaker(&presets, 3).unwrap(), "A.mp3");
    assert_eq!(voice_for_speaker(&presets, -1).unwrap(), "A.mp3");
    assert_eq!(voice_for_speaker(&[], 0), Err("IndexTTS2 音色目录中没有可用文件".to_string()));
}
