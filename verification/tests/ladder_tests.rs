use mmx_core::ladder::{suggest_ladder_from_dims, Ladder};

#[test]
fn fixed_ladder_rows() {
    let l = Ladder::fixed_360_720_1080();
    assert_eq!(l.items.len(), 3);
    assert_eq!((l.items[0].w, l.items[0].h), (640, 360));
    assert_eq!((l.items[0].v_bitrate_k, l.items[0].a_bitrate_k), (700, 128));
    assert_eq!(l.items[0].name, "360p");
    assert_eq!((l.items[1].w, l.items[1].h), (1280, 720));
    assert_eq!((l.items[1].v_bitrate_k, l.items[1].a_bitrate_k), (2200, 128));
    assert_eq!(l.items[1].name, "720p");
    assert_eq!((l.items[2].w, l.items[2].h), (1920, 1080));
    assert_eq!((l.items[2].v_bitrate_k, l.items[2].a_bitrate_k), (4500, 192));
    assert_eq!(l.items[2].name, "1080p");
}

#[test]
fn parses_a_three_rung_specification() {
    let l = Ladder::from_string("426x240@400k,640x360@800k,1280x720@2500k").unwrap();
    assert_eq!(l.items.len(), 3);
    assert_eq!((l.items[0].w, l.items[0].h, l.items[0].v_bitrate_k), (426, 240, 400));
    assert_eq!(l.items[0].a_bitrate_k, 128);
    assert_eq!(l.items[0].name, "240p");
    assert_eq!(l.items[2].name, "720p");
}

#[test]
fn parses_audio_bitrate_and_name() {
    let l = Ladder::from_string("640x360@800k/96k:low").unwrap();
    assert_eq!(l.items.len(), 1);
    assert_eq!(l.items[0].a_bitrate_k, 96);
    assert_eq!(l.items[0].name, "low");
}

#[test]
fn tolerates_whitespace_around_entries() {
    let l = Ladder::from_string(" 640x360@800k , 1280x720@2500k ").unwrap();
    assert_eq!(l.items.len(), 2);
    assert_eq!(l.items[1].h, 720);
}

#[test]
fn rejects_malformed_specifications() {
    assert!(Ladder::from_string("").is_none());
    assert!(Ladder::from_string("640x360").is_none());
    assert!(Ladder::from_string("640x360@800").is_none());
    assert!(Ladder::from_string("x360@800k").is_none());
    assert!(Ladder::from_string("640x360@800k,oops").is_none());
    assert!(Ladder::from_string("640x360@800k:").is_none());
    assert!(Ladder::from_string("640x360@800k:bad name").is_none());
}

#[test]
fn suggestion_respects_the_source_height() {
    let small = suggest_ladder_from_dims(854, 480);
    assert_eq!(small.items.len(), 1);
    assert_eq!((small.items[0].h, small.items[0].v_bitrate_k), (360, 800));

    let hd = suggest_ladder_from_dims(1920, 1080);
    assert_eq!(hd.items.len(), 3);
    assert!(hd.items.iter().all(|i| i.h <= 1080));

    let uhd = suggest_ladder_from_dims(3840, 2160);
    assert_eq!(uhd.items.len(), 5);
    assert_eq!(uhd.items[4].h, 2160);
    assert_eq!(uhd.items[4].name, "2160p");

    let tiny = suggest_ladder_from_dims(320, 240);
    assert_eq!(tiny.items.len(), 0);
}
