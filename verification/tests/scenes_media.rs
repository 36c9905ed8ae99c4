use lingchat::media::{
    eq_ignore_ascii_case, has_listed_extension, is_reserved_music_category, numbered_track_name,
    original_upload_name, resolve_music_path, timestamped_track_name, track_name, track_stem,
    upload_format, upload_format_of, upload_result, SniffedKind, AUDIO_EXTENSIONS, CHAT_SOUND_EXTENSIONS, IMAGE_EXTENSIONS,
};
use lingchat::media::{
    chat_sound_item, game_background_item, game_music_item, plugin_background_item, plugin_music_item,
    safe_upload_name, pick_track_name, free_track_name,
};
use lingchat::path::join;
use lingchat::audio::encode_wav_pcm16;
use lingchat::cloud::oss_object_key;
use lingchat::scene::{
    apply_scene_update, migrate_scene_background, new_scene, remove_scene, resolve_input_background,
    stored_relative_background, BackgroundIndex, CreateSceneRequest, Scene, UpdateSceneRequest,
};

#[test]
fn preserves_category_segments_in_relative_music_urls() {
    let base = "music";
    assert_eq!(resolve_music_path(base, "battle/boss.mp3"), join(&join(base, "battle"), "boss.mp3"));
    assert_eq!(resolve_music_path(base, "boss.mp3"), join(base, "boss.mp3"));
}

#[test]
fn absolute_music_urls_are_kept() {
    assert_eq!(resolve_music_path("music", "/data/music/a.mp3"), "/data/music/a.mp3");
}

#[test]
fn background_index_uses_category_to_disambiguate_same_name() {
    let base = "backgrounds";
    let root = join(base, "room.png");
    let sub = join(&join(base, "古风"), "room.png");
    let index = BackgroundIndex::build(base, &[root.clone(), sub.clone()]);
    assert_eq!(index.resolve("room.png", "根目录").unwrap(), Some(root));
    assert_eq!(index.resolve("room.png", "古风").unwrap(), Some(sub));
}

#[test]
fn background_index_resolves_stored_relative_path_exactly() {
    let base = "backgrounds";
    let root = join(base, "room.png");
    let sub = join(&join(base, "古风"), "room.png");
    let index = BackgroundIndex::build(base, &[root, sub.clone()]);
    assert_eq!(index.resolve("古风/room.png", "根目录").unwrap(), Some(sub));
}

#[test]
fn background_index_rejects_ambiguous_legacy_filename() {
    let base = "backgrounds";
    let first = join(&join(base, "古风"), "room.png");
    let second = join(&join(base, "现代"), "room.png");
    let index = BackgroundIndex::build(base, &[first, second]);
    assert!(index.resolve("room.png", "根目录").is_err());
}

#[test]
fn blank_background_resolves_to_nothing() {
    let index = BackgroundIndex::build("backgrounds", &["backgrounds/room.png".to_string()]);
    assert_eq!(index.resolve("   ", "根目录").unwrap(), None);
    assert_eq!(index.resolve("missing.png", "根目录").unwrap(), None);
}

fn scene(background: &str, category: &str) -> Scene<()> {
    Scene {
        id: "s1".to_string(),
        name: "room".to_string(),
        description: String::new(),
        background: background.to_string(),
        category: category.to_string(),
        lighting: None,
        created_at: String::new(),
        updated_at: String::new(),
        plugin_id: None,
    }
}

#[test]
fn legacy_file_names_migrate_to_relative_paths() {
    let base = "backgrounds";
    let sub = join(&join(base, "古风"), "room.png");
    let index = BackgroundIndex::build(base, &[sub]);
    let mut s = scene("room.png", "根目录");
    assert!(migrate_scene_background(&mut s, base, &index));
    assert_eq!(s.background, "古风/room.png");
    assert_eq!(s.category, "古风");
    assert!(!migrate_scene_background(&mut s, base, &index));
}

#[test]
fn plugin_scenes_are_not_migrated() {
    let index = BackgroundIndex::build("backgrounds", &["backgrounds/room.png".to_string()]);
    let mut s = scene("room.png", "根目录");
    s.plugin_id = Some("p".to_string());
    assert!(!migrate_scene_background(&mut s, "backgrounds", &index));
    assert_eq!(s.background, "room.png");
}

#[test]
fn listed_extensions_ignore_case() {
    assert!(has_listed_extension("a/b/Song.MP3", &AUDIO_EXTENSIONS));
    assert!(!has_listed_extension("a/b/song.m4a", &AUDIO_EXTENSIONS));
    assert!(has_listed_extension("ding.m4a", &CHAT_SOUND_EXTENSIONS));
    assert!(has_listed_extension("bg/Room.JPEG", &IMAGE_EXTENSIONS));
    assert!(!has_listed_extension("noext", &IMAGE_EXTENSIONS));
}

#[test]
fn upload_format_takes_only_known_audio() {
    assert_eq!(upload_format(Some((SniffedKind::Audio, "flac"))).unwrap(), "flac");
    assert_eq!(upload_format(Some((SniffedKind::Audio, "m4a"))).unwrap_err(), "MUSIC_INVALID_FORMAT");
    assert_eq!(upload_format(Some((SniffedKind::Video, "mp4"))).unwrap_err(), "MUSIC_INVALID_FORMAT");
    assert_eq!(upload_format(None).unwrap_err(), "MUSIC_INVALID_FORMAT");
}

#[test]
fn upload_format_reads_the_file_header() {
    let wav = encode_wav_pcm16(22_050, &[0, 0, 1, 0]).unwrap();
    assert_eq!(upload_format_of(&wav).unwrap(), "wav");
    let png = [0x89u8, b'P', b'N', b'G', 0x0D, 0x0A, 0x1A, 0x0A, 0, 0, 0, 0];
    assert_eq!(upload_format_of(&png).unwrap_err(), "MUSIC_INVALID_FORMAT");
    assert_eq!(upload_format_of(b"plain text").unwrap_err(), "MUSIC_INVALID_FORMAT");
}

#[test]
fn upload_names_follow_the_detected_format() {
    assert_eq!(original_upload_name("C:/x/y/Song.MP3", "display").unwrap(), "Song.MP3");
    assert_eq!(original_upload_name("", "display.ogg").unwrap(), "display.ogg");
    assert_eq!(original_upload_name("", "").unwrap_err(), "无效的文件名: ");
    assert_eq!(track_stem("Song.MP3"), "Song");
    assert_eq!(track_stem(".."), "track");
    assert_eq!(track_name("Song", "mp3"), "Song.mp3");
    assert_eq!(numbered_track_name("Song", 12, "mp3"), "Song_12.mp3");
    assert_eq!(timestamped_track_name("Song", -5, "mp3"), "Song_-5mp3");
    assert_eq!(timestamped_track_name("Song", 1700, "mp3"), "Song_1700mp3");
}

#[test]
fn case_only_renames_are_not_corrections() {
    assert!(eq_ignore_ascii_case("Song.MP3", "song.mp3"));
    assert!(!upload_result("Song.MP3".into(), "Song.mp3".into(), "mp3".into()).was_corrected);
    assert!(upload_result("Song.wav".into(), "Song.mp3".into(), "mp3".into()).was_corrected);
}

#[test]
fn reserved_music_categories() {
    assert!(is_reserved_music_category("全部"));
    assert!(is_reserved_music_category("插件"));
    assert!(!is_reserved_music_category("战斗"));
}

#[test]
fn new_scenes_get_an_id_and_their_category() {
    let req = CreateSceneRequest {
        scene_name: "n".to_string(),
        scene_description: "d".to_string(),
        background: "古风/room.png".to_string(),
        lighting: None::<u8>,
    };
    let s = new_scene(req, "古风/room.png".to_string());
    assert_eq!(s.id.len(), 36);
    assert_eq!(s.id.as_bytes()[8], b'-');
    assert_eq!(s.category, "古风");
    assert_eq!(s.created_at, s.updated_at);
    assert!(s.plugin_id.is_none());
}

#[test]
fn scene_updates_and_deletes_by_id() {
    let mut scenes = vec![scene("a.png", "根目录"), scene("b.png", "根目录")];
    scenes[1].id = "s2".to_string();
    let req = UpdateSceneRequest {
        id: "s2".to_string(),
        scene_name: "new".to_string(),
        scene_description: "desc".to_string(),
        background: "x/c.png".to_string(),
        lighting: Some(()),
    };
    assert_eq!(apply_scene_update(&mut scenes, req, "x/c.png".to_string()).unwrap(), 1);
    assert_eq!(scenes[1].name, "new");
    assert_eq!(scenes[1].category, "x");
    assert_eq!(scenes[0].background, "a.png");
    let missing = UpdateSceneRequest {
        id: "zz".to_string(),
        scene_name: String::new(),
        scene_description: String::new(),
        background: String::new(),
        lighting: None,
    };
    assert_eq!(apply_scene_update(&mut scenes, missing, String::new()).unwrap_err(), "场景 zz 不存在");
    assert!(remove_scene(&mut scenes, "s1").is_ok());
    assert_eq!(scenes.len(), 1);
    assert_eq!(remove_scene(&mut scenes, "s1").unwrap_err(), "场景 s1 不存在");
}

#[test]
fn typed_backgrounds_resolve_then_store_relative() {
    let index = BackgroundIndex::build("backgrounds", &["backgrounds/古风/room.png".to_string()]);
    assert_eq!(resolve_input_background("  ", &index).unwrap(), None);
    let p = resolve_input_background("room.png", &index).unwrap().unwrap();
    assert_eq!(p, "backgrounds/古风/room.png");
    assert_eq!(stored_relative_background(&p, "backgrounds").unwrap(), "古风/room.png");
    assert_eq!(resolve_input_background("gone.png", &index).unwrap_err(), "找不到背景文件: gone.png");
    assert_eq!(stored_relative_background("/elsewhere/x.png", "backgrounds").unwrap_err(), "背景路径不在背景目录内");
}

#[test]
fn sample_keys_carry_a_random_prefix() {
    let key = oss_object_key("tmp/dir", "/home/u/voice 1.wav");
    assert!(key.starts_with("tmp/dir/"));
    assert!(key.ends_with("-voice 1.wav"));
    assert_eq!(key.len(), "tmp/dir/".len() + 8 + "-voice 1.wav".len());
    let other = oss_object_key("tmp/dir", "/home/u/voice 1.wav");
    assert_ne!(key, other);
    assert!(oss_object_key("d", "/").ends_with("-sample.wav"));
}

#[test]
fn listed_items_are_named_by_file_stem() {
    let m = game_music_item("/data/music/战斗/theme.final.mp3", "战斗".to_string(), "12.5".to_string());
    assert_eq!(m.name, "theme.final");
    assert_eq!(m.url, "/data/music/战斗/theme.final.mp3");
    assert_eq!(m.category, "战斗");
    assert_eq!(m.source, "game");
    assert_eq!(m.plugin_id, None);

    let p = plugin_music_item("曲".to_string(), "/p/a.ogg", "1".to_string(), "plug".to_string());
    assert_eq!(p.category, "插件");
    assert_eq!(p.source, "plug");
    assert_eq!(p.plugin_id.as_deref(), Some("plug"));

    let b = game_background_item("/bg/根/sky.png", "根目录".to_string(), "0".to_string());
    assert_eq!(b.title, "sky");
    assert_eq!(b.category, "根目录");
    let pb = plugin_background_item("Sky".to_string(), "/p/sky.png", "0".to_string(), "x".to_string());
    assert_eq!(pb.title, "Sky");
    assert_eq!(pb.category, "插件");

    let c = chat_sound_item("/sounds/ding.wav", "3".to_string());
    assert_eq!(c.name, "ding");
    assert_eq!(c.url, "/sounds/ding.wav");
    assert_eq!(chat_sound_item("/sounds/", "3".to_string()).name, "sounds");
}

#[test]
fn uploads_keep_only_the_last_name_component() {
    assert_eq!(safe_upload_name("../../etc/rain.mp3"), Ok("rain.mp3".to_string()));
    assert_eq!(safe_upload_name("雨声.ogg"), Ok("雨声.ogg".to_string()));
    assert_eq!(safe_upload_name("a/.."), Err("无效的文件名: a/..".to_string()));
    assert_eq!(safe_upload_name(""), Err("无效的文件名: ".to_string()));
}

#[test]
fn uploads_take_the_first_free_name() {
    let mut taken = vec![false; 999];
    assert_eq!(pick_track_name("Song", "mp3", &taken, 7), "Song.mp3");
    taken[0] = true;
    assert_eq!(pick_track_name("Song", "mp3", &taken, 7), "Song_2.mp3");
    taken[1] = true;
    taken[3] = false;
    assert_eq!(pick_track_name("Song", "mp3", &taken, 7), "Song_3.mp3");
    let all = vec![true; 999];
    assert_eq!(pick_track_name("Song", "mp3", &all, 1700), "Song_1700mp3");
    let mut last = vec![true; 999];
    last[998] = false;
    assert_eq!(pick_track_name("Song", "mp3", &last, 1), "Song_999.mp3");
    assert_eq!(free_track_name("/no/such/lingchat/dir", "Song", "mp3"), "Song.mp3");
}
