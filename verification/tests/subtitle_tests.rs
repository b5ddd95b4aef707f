use news_director::subtitle::srt::SrtSubtitle;
use news_director::subtitle::SingleSubtitle;

#[test]
fn write_subtitle_success() {
    let writer = SrtSubtitle::new();

    let list = vec![
        SingleSubtitle { text: "闺蜜闺蜜想不想玩第五人格喵喵喵".to_owned(), duration: 1000 },
        SingleSubtitle { text: "兄弟兄弟想不想玩第五人格喵喵喵".to_owned(), duration: 1000 },
        SingleSubtitle { text: "鸡块狗".to_owned(), duration: 200 },
    ];

    let content = writer.subtitle_content(&list);

    assert!(content.is_some());

    let content = content.unwrap();
    assert_eq!(
        content,
        r#"1
00:00:00,000 --> 00:00:01,000
闺蜜闺蜜想不想玩第五人格喵喵喵

2
00:00:01,200 --> 00:00:02,200
兄弟兄弟想不想玩第五人格喵喵喵

3
00:00:02,400 --> 00:00:02,600
鸡块狗

"#
    );
}

#[test]
fn timestamps_are_fixed_width() {
    assert_eq!(SrtSubtitle::to_subtitle_time_string(0), "00:00:00,000");
    assert_eq!(SrtSubtitle::to_subtitle_time_string(1000), "00:00:01,000");
    assert_eq!(SrtSubtitle::to_subtitle_time_string(2700), "00:00:02,700");
    assert_eq!(SrtSubtitle::to_subtitle_time_string(3_723_456), "01:02:03,456");
    assert_eq!(SrtSubtitle::to_subtitle_time_string(366_610_009), "101:50:10,009");
}

#[test]
fn single_entry_spans_start_to_end() {
    let writer = SrtSubtitle::new();
    let (entry, end) = writer.gen_single_subtitle("hello", 2, 1200, 1000);
    assert_eq!(entry, "2\n00:00:01,200 --> 00:00:02,200\nhello\n\n");
    assert_eq!(end, 2200);
}

#[test]
fn captions_are_gap_additive() {
    // One second, one second, then a fifth of a second: the captions sit at
    // [0,1], [1.2,2.2] and [2.4,2.6] seconds.
    let writer = SrtSubtitle::new();
    let list = vec![
        SingleSubtitle { text: "a".to_owned(), duration: 1000 },
        SingleSubtitle { text: "b".to_owned(), duration: 1000 },
        SingleSubtitle { text: "c".to_owned(), duration: 200 },
    ];
    let content = writer.subtitle_content(&list).unwrap();
    assert_eq!(
        content,
        "1\n00:00:00,000 --> 00:00:01,000\na\n\n\
         2\n00:00:01,200 --> 00:00:02,200\nb\n\n\
         3\n00:00:02,400 --> 00:00:02,600\nc\n\n"
    );
}

#[test]
fn identical_captions_render_identically() {
    let writer = SrtSubtitle::new();
    let list = vec![
        SingleSubtitle { text: "again".to_owned(), duration: 700 },
        SingleSubtitle { text: "and again".to_owned(), duration: 1300 },
    ];
    let first = writer.subtitle_content(&list).unwrap();
    let second = writer.subtitle_content(&list).unwrap();
    assert_eq!(first, second);
}

#[test]
fn overflowing_caption_times_are_refused() {
    let writer = SrtSubtitle::new();
    let list = vec![
        SingleSubtitle { text: "too long".to_owned(), duration: u64::MAX },
        SingleSubtitle { text: "after".to_owned(), duration: 1 },
    ];
    assert!(writer.subtitle_content(&list).is_none());
}

#[test]
fn empty_caption_list_renders_empty() {
    let writer = SrtSubtitle::new();
    let content = writer.subtitle_content(&vec![]).unwrap();
    assert_eq!(content, "");
}

#[test]
fn temp_dir_is_configurable() {
    let writer = SrtSubtitle::new();
    assert_eq!(writer.temp_dir, "temp");
    let writer = writer.with_temp_dir("elsewhere".to_string());
    assert_eq!(writer.temp_dir, "elsewhere");
}
