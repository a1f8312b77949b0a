use content_store::db::table::StoreError;
use content_store::db::video::{Video, VideoDB, YoutubeKind, YoutubeQuality};

fn video(uuid: &str, expires_at: u64) -> Video {
    Video {
        uuid: uuid.to_string(),
        vid_id: format!("id-{}", uuid),
        name: format!("name of {}", uuid),
        format: 1,
        quality: 2,
        path: format!("./files/{}-id", uuid),
        created: 10,
        expires_at,
        user: 3,
    }
}

#[test]
fn youtube_kind_codes_round_trip() {
    let kinds = [YoutubeKind::Video, YoutubeKind::AudioWav, YoutubeKind::AudioMp3];
    for (code, kind) in kinds.iter().enumerate() {
        assert_eq!(kind.to_u8() as usize, code);
        assert_eq!(YoutubeKind::from_u8(code as u8), *kind);
    }
    assert_eq!(YoutubeKind::from_u8(3), YoutubeKind::Video);
    assert_eq!(YoutubeKind::from_u8(255), YoutubeKind::Video);
}

#[test]
fn youtube_kind_extensions() {
    assert_eq!(YoutubeKind::Video.as_str(), "mp4");
    assert_eq!(YoutubeKind::AudioWav.as_str(), "wav");
    assert_eq!(YoutubeKind::AudioMp3.as_str(), "mp3");
}

#[test]
fn only_the_sound_formats_are_audio() {
    assert!(!YoutubeKind::Video.is_audio());
    assert!(YoutubeKind::AudioWav.is_audio());
    assert!(YoutubeKind::AudioMp3.is_audio());
}

#[test]
fn youtube_quality_codes_round_trip() {
    let qualities =
        [YoutubeQuality::Best, YoutubeQuality::High, YoutubeQuality::Medium, YoutubeQuality::Worst];
    for (code, quality) in qualities.iter().enumerate() {
        assert_eq!(quality.to_u8() as usize, code);
        assert_eq!(YoutubeQuality::from_u8(code as u8), *quality);
    }
    assert_eq!(YoutubeQuality::from_u8(4), YoutubeQuality::Best);
}

#[test]
fn youtube_quality_selectors() {
    assert_eq!(YoutubeQuality::Best.as_str_vid(), "bv+ba/b");
    assert_eq!(
        YoutubeQuality::High.as_str_vid(),
        "bv*[height<=720]+ba/b[height<=720] / wv*+ba/w"
    );
    assert_eq!(
        YoutubeQuality::Medium.as_str_vid(),
        "bv*[height<=480]+ba/b[height<=480] / wv*+ba/w"
    );
    assert_eq!(YoutubeQuality::Worst.as_str_vid(), "+size,+br");
    assert_eq!(YoutubeQuality::Best.as_str_audio(), "ba/b");
    assert_eq!(YoutubeQuality::High.as_str_audio(), "ba/w");
    assert_eq!(YoutubeQuality::Medium.as_str_audio(), "ba/w");
    assert_eq!(YoutubeQuality::Worst.as_str_audio(), "+size,+br");
}

#[test]
fn only_the_worst_quality_is_a_sort_order() {
    assert!(!YoutubeQuality::Best.use_selection());
    assert!(!YoutubeQuality::High.use_selection());
    assert!(!YoutubeQuality::Medium.use_selection());
    assert!(YoutubeQuality::Worst.use_selection());
}

#[test]
fn added_video_is_found_as_it_was_given() {
    let mut db = VideoDB::new();
    assert_eq!(db.add(&video("v1", 0)), Ok(()));
    let found = db.get_by_uuid("v1").unwrap();
    assert_eq!(found.vid_id, "id-v1");
    assert_eq!(found.name, "name of v1");
    assert_eq!((found.format, found.quality, found.user), (1, 2, 3));
    assert_eq!(found.path, "./files/v1-id");
    assert_eq!((found.created, found.expires_at), (10, 0));
    assert!(db.get_by_uuid("v2").is_none());
}

#[test]
fn taken_video_handle_is_a_conflict() {
    let mut db = VideoDB::new();
    db.add(&video("v1", 0)).unwrap();
    assert_eq!(db.add(&video("v1", 5)), Err(StoreError::Conflict));
    assert_eq!(db.get_paths().len(), 1);
    assert_eq!(db.get_by_uuid("v1").unwrap().expires_at, 0);
}

#[test]
fn video_data_is_overwritten_in_place() {
    let mut db = VideoDB::new();
    db.add(&video("v1", 0)).unwrap();
    db.add(&video("v2", 0)).unwrap();
    let mut data = video("other", 77);
    data.path = "./files/v1-id.mp4".to_string();
    db.update_data("v1", &data);
    let found = db.get_by_uuid("v1").unwrap();
    assert_eq!(found.uuid, "v1");
    assert_eq!(found.path, "./files/v1-id.mp4");
    assert_eq!(found.expires_at, 77);
    assert!(db.get_by_uuid("other").is_none());
    assert_eq!(db.get_paths(), vec!["./files/v1-id.mp4", "./files/v2-id"]);
    db.update_data("missing", &data);
    assert_eq!(db.get_paths().len(), 2);
}

#[test]
fn expired_videos_are_those_past_their_time() {
    let mut db = VideoDB::new();
    db.add(&video("never", 0)).unwrap();
    db.add(&video("soon", 20)).unwrap();
    db.add(&video("later", 30)).unwrap();
    let at_20: Vec<String> = db.get_expired_videos(20).into_iter().map(|v| v.uuid).collect();
    assert!(at_20.is_empty());
    let at_21: Vec<String> = db.get_expired_videos(21).into_iter().map(|v| v.uuid).collect();
    assert_eq!(at_21, vec!["soon"]);
    let at_end: Vec<String> = db.get_expired_videos(u64::MAX).into_iter().map(|v| v.uuid).collect();
    assert_eq!(at_end, vec!["soon", "later"]);
}

#[test]
fn removing_a_video_twice_is_removing_it_once() {
    let mut db = VideoDB::new();
    db.add(&video("v1", 0)).unwrap();
    db.add(&video("v2", 0)).unwrap();
    db.remove_by_uuid("v1");
    db.remove_by_uuid("v1");
    assert!(db.get_by_uuid("v1").is_none());
    assert_eq!(db.get_paths(), vec!["./files/v2-id"]);
}

#[test]
fn expired_videos_are_removed_and_their_paths_named() {
    let mut db = VideoDB::new();
    db.add(&video("never", 0)).unwrap();
    db.add(&video("soon", 20)).unwrap();
    db.add(&video("later", 30)).unwrap();
    assert!(db.remove_expired(20).is_empty());
    assert_eq!(db.remove_expired(25), vec!["./files/soon-id"]);
    assert_eq!(db.get_paths(), vec!["./files/never-id", "./files/later-id"]);
    assert_eq!(db.remove_expired(u64::MAX), vec!["./files/later-id"]);
    assert!(db.get_by_uuid("never").is_some());
}
