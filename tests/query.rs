use everything_search::{
    convert_filetime, convert_sort_type, range_window, search, search_regex, Item, ItemMetadata, ItemType,
    RangeBound, RawResult, Search, SortKey, SortOrder, Timestamp, Window,
};

const FILETIME_UNIX_DIFF: u64 = 116_444_736_000_000_000;

fn raw(path: &str, is_file: bool, is_folder: bool, is_volume: bool) -> RawResult {
    RawResult {
        path: Ok(path.to_string()),
        is_file,
        is_folder,
        is_volume,
        size: Ok(1234),
        date_created: Ok(FILETIME_UNIX_DIFF + 10_000_000),
        date_modified: Ok(FILETIME_UNIX_DIFF + 20_000_005),
        date_accessed: Ok(FILETIME_UNIX_DIFF),
        attributes: Ok(0x20),
    }
}

fn file(path: &str) -> RawResult {
    raw(path, true, false, false)
}

#[test]
fn search_defaults() {
    let s = search("*.txt".to_string());
    assert_eq!(s.pattern, "*.txt");
    assert!(!s.regex);
    assert!(!s.match_case);
    assert!(!s.match_path);
    assert!(!s.match_whole_word);
    assert_eq!(s.sort_key, SortKey::Name);
    assert_eq!(s.sort_order, SortOrder::Ascending);
    assert!(s.requested_metadata.is_empty());
}

#[test]
fn search_regex_defaults() {
    let s = search_regex("^a.*b$".to_string());
    assert_eq!(s.pattern, "^a.*b$");
    assert!(s.regex);
    assert!(!s.match_case);
    assert_eq!(s.requested_metadata, ItemMetadata::empty());
}

#[test]
fn builders_set_one_option_each() {
    let s = search("x".to_string()).match_case(true);
    assert!(s.match_case && !s.match_path && !s.match_whole_word);
    let s = s.match_path(true);
    assert!(s.match_case && s.match_path && !s.match_whole_word);
    let s = s.match_whole_word(true).match_case(false);
    assert!(!s.match_case && s.match_path && s.match_whole_word);
}

#[test]
fn sort_by_last_write_wins() {
    let s = search("*.txt".to_string())
        .sort_by(SortKey::Size, SortOrder::Descending)
        .sort_by(SortKey::Name, SortOrder::Ascending);
    assert_eq!(s.sort_key, SortKey::Name);
    assert_eq!(s.sort_order, SortOrder::Ascending);
    assert_eq!(s.plan_all().sort, 1);
}

#[test]
fn request_metadata_twice_is_union() {
    let twice = search("*.txt".to_string())
        .request_metadata(ItemMetadata::size())
        .request_metadata(ItemMetadata::date_modified());
    let once = search("*.txt".to_string())
        .request_metadata(ItemMetadata::size().union(ItemMetadata::date_modified()));
    assert_eq!(twice, once);
    assert_eq!(twice.requested_metadata.bits(), 0x50);
    let raws = vec![file("C:\\a.txt")];
    assert_eq!(twice.collect_items(&raws), once.collect_items(&raws));
}

#[test]
fn metadata_flag_bits() {
    assert_eq!(ItemMetadata::size().bits(), 0x10);
    assert_eq!(ItemMetadata::date_created().bits(), 0x20);
    assert_eq!(ItemMetadata::date_modified().bits(), 0x40);
    assert_eq!(ItemMetadata::date_accessed().bits(), 0x80);
    assert_eq!(ItemMetadata::attributes().bits(), 0x100);
    assert_eq!(ItemMetadata::all().bits(), 0x1F0);
    assert_eq!(ItemMetadata::from_bits_truncate(0xFFFF_FFFF), ItemMetadata::all());
    assert_eq!(ItemMetadata::from_bits_truncate(0x13).bits(), 0x10);
    assert_eq!(ItemMetadata::default(), ItemMetadata::empty());
    let m = ItemMetadata::size().union(ItemMetadata::attributes());
    assert!(m.contains(ItemMetadata::size()));
    assert!(m.contains(ItemMetadata::attributes()));
    assert!(!m.contains(ItemMetadata::date_created()));
    assert!(!m.contains(ItemMetadata::all()));
    assert!(m.contains(ItemMetadata::empty()));
}

#[test]
fn sort_codes_are_the_engines() {
    let expected = [
        (SortKey::Name, 1, 2),
        (SortKey::Path, 3, 4),
        (SortKey::Size, 5, 6),
        (SortKey::Extension, 7, 8),
        (SortKey::TypeName, 9, 10),
        (SortKey::DateCreated, 11, 12),
        (SortKey::DateModified, 13, 14),
        (SortKey::Attributes, 15, 16),
        (SortKey::DateAccessed, 23, 24),
    ];
    for (key, asc, desc) in expected {
        assert_eq!(convert_sort_type(key, SortOrder::Ascending), asc);
        assert_eq!(convert_sort_type(key, SortOrder::Descending), desc);
    }
}

#[test]
fn sort_codes_are_distinct() {
    let keys = [
        SortKey::Name,
        SortKey::TypeName,
        SortKey::Path,
        SortKey::Size,
        SortKey::Extension,
        SortKey::DateCreated,
        SortKey::DateModified,
        SortKey::DateAccessed,
        SortKey::Attributes,
    ];
    let mut codes = Vec::new();
    for key in keys {
        for order in [SortOrder::Ascending, SortOrder::Descending] {
            codes.push(convert_sort_type(key, order));
        }
    }
    assert_eq!(codes.len(), 18);
    for i in 0..codes.len() {
        for j in 0..i {
            assert_ne!(codes[i], codes[j]);
        }
    }
}

#[test]
fn window_of_half_open_range() {
    assert_eq!(
        range_window(RangeBound::Included(0), RangeBound::Excluded(10)),
        Window { offset: 0, count: 10 }
    );
    assert_eq!(
        range_window(RangeBound::Included(100), RangeBound::Excluded(200)),
        Window { offset: 100, count: 100 }
    );
}

#[test]
fn window_of_closed_range() {
    let w = range_window(RangeBound::Included(3), RangeBound::Included(7));
    assert_eq!(w, Window { offset: 3, count: 5 });
    assert_eq!(w.offset + w.count - 1, 7);
}

#[test]
fn window_with_excluded_start() {
    assert_eq!(
        range_window(RangeBound::Excluded(4), RangeBound::Included(9)),
        Window { offset: 5, count: 5 }
    );
}

#[test]
fn window_of_open_ends() {
    assert_eq!(
        range_window(RangeBound::Unbounded, RangeBound::Unbounded),
        Window { offset: 0, count: u32::MAX }
    );
    assert_eq!(
        range_window(RangeBound::Unbounded, RangeBound::Excluded(100)),
        Window { offset: 0, count: 100 }
    );
    assert_eq!(
        range_window(RangeBound::Included(50), RangeBound::Unbounded),
        Window { offset: 50, count: u32::MAX }
    );
}

#[test]
fn window_of_empty_and_inverted_ranges() {
    assert_eq!(
        range_window(RangeBound::Included(5), RangeBound::Excluded(5)),
        Window { offset: 5, count: 0 }
    );
    assert_eq!(
        range_window(RangeBound::Included(5), RangeBound::Excluded(3)),
        Window { offset: 5, count: u32::MAX - 1 }
    );
}

#[test]
fn filetime_at_epoch_offset_is_unix_epoch() {
    assert_eq!(convert_filetime(FILETIME_UNIX_DIFF), Timestamp::unix_epoch());
}

#[test]
fn filetime_before_epoch_saturates() {
    assert_eq!(convert_filetime(0), Timestamp { secs: 0, nanos: 0 });
    assert_eq!(convert_filetime(FILETIME_UNIX_DIFF - 1), Timestamp { secs: 0, nanos: 0 });
}

#[test]
fn filetime_exact_values() {
    assert_eq!(convert_filetime(FILETIME_UNIX_DIFF + 15_000_000), Timestamp { secs: 1, nanos: 500_000_000 });
    assert_eq!(convert_filetime(FILETIME_UNIX_DIFF + 1), Timestamp { secs: 0, nanos: 100 });
    // 2024-01-01T00:00:00Z
    assert_eq!(convert_filetime(133_485_408_000_000_000), Timestamp { secs: 1_704_067_200, nanos: 0 });
    assert_eq!(
        convert_filetime(u64::MAX),
        Timestamp { secs: 1_833_029_933_770, nanos: 955_161_500 }
    );
}

#[test]
fn filetime_is_monotonic() {
    let a = convert_filetime(FILETIME_UNIX_DIFF + 9_999_999);
    let b = convert_filetime(FILETIME_UNIX_DIFF + 10_000_000);
    assert!(a.is_before(&b));
    assert!(!b.is_before(&a));
    assert!(a < b);
    assert!(!a.is_before(&a));
}

#[test]
fn plan_range_carries_every_setting() {
    let s = search_regex("a+".to_string())
        .match_case(true)
        .match_path(true)
        .match_whole_word(true)
        .sort_by(SortKey::DateModified, SortOrder::Descending)
        .request_metadata(ItemMetadata::size());
    let q = s.plan_range(RangeBound::Included(100), RangeBound::Excluded(200));
    assert_eq!(q.pattern, "a+");
    assert!(q.regex && q.match_case && q.match_path && q.match_whole_word);
    assert_eq!(q.sort, 14);
    assert_eq!(q.request_flags, 0x10);
    assert_eq!(q.offset, 100);
    assert_eq!(q.max, 100);
    assert_eq!(s.apply(Window { offset: 100, count: 100 }), q);
}

#[test]
fn plan_all_is_unbounded() {
    let q = search("*.txt".to_string()).plan_all();
    assert_eq!(q.offset, 0);
    assert_eq!(q.max, u32::MAX);
    assert_eq!(q.sort, 1);
    assert_eq!(q.request_flags, 0);
    assert!(!q.regex);
}

#[test]
fn no_metadata_requested_gives_absent_fields() {
    let s = search("*.txt".to_string());
    let q = s.plan_range(RangeBound::Included(0), RangeBound::Excluded(10));
    assert_eq!(q.max, 10);
    let raws: Vec<RawResult> = (0..10).map(|i| file(&format!("C:\\f{}.txt", i))).collect();
    let items = s.collect_items(&raws);
    assert!(items.len() <= 10);
    assert_eq!(items.len(), 10);
    for item in &items {
        assert_eq!(item.size, None);
        assert_eq!(item.date_created, None);
        assert_eq!(item.date_modified, None);
        assert_eq!(item.date_accessed, None);
        assert_eq!(item.attributes, None);
    }
}

#[test]
fn requested_metadata_is_filled() {
    let s = search("*".to_string()).request_metadata(ItemMetadata::all());
    let item = Item::from_result(&s, &file("C:\\a.txt")).unwrap();
    assert_eq!(item.path, "C:\\a.txt");
    assert_eq!(item.item_type, ItemType::File);
    assert_eq!(item.size, Some(1234));
    assert_eq!(item.date_created, Some(Timestamp { secs: 1, nanos: 0 }));
    assert_eq!(item.date_modified, Some(Timestamp { secs: 2, nanos: 500 }));
    assert_eq!(item.date_accessed, Some(Timestamp { secs: 0, nanos: 0 }));
    assert_eq!(item.attributes, Some(0x20));
}

#[test]
fn only_requested_fields_are_filled() {
    let s = search("*".to_string()).request_metadata(ItemMetadata::date_accessed());
    let item = Item::from_result(&s, &file("C:\\a.txt")).unwrap();
    assert_eq!(item.size, None);
    assert_eq!(item.date_created, None);
    assert_eq!(item.date_modified, None);
    assert_eq!(item.date_accessed, Some(Timestamp { secs: 0, nanos: 0 }));
    assert_eq!(item.attributes, None);
}

#[test]
fn failed_metadata_degrades_to_absent() {
    let s = search("*".to_string()).request_metadata(ItemMetadata::size().union(ItemMetadata::attributes()));
    let mut r = file("C:\\a.txt");
    r.size = Err("unavailable".to_string());
    let item = Item::from_result(&s, &r).unwrap();
    assert_eq!(item.size, None);
    assert_eq!(item.attributes, Some(0x20));
}

#[test]
fn failed_path_skips_the_item() {
    let s = search("*.txt".to_string());
    let mut bad = file("C:\\b.txt");
    bad.path = Err("invalid call".to_string());
    assert_eq!(Item::from_result(&s, &bad), None);
    let raws = vec![file("C:\\a.txt"), bad, file("C:\\c.txt")];
    let items = s.collect_items(&raws);
    assert_eq!(items.len(), raws.len() - 1);
    assert_eq!(items[0].path, "C:\\a.txt");
    assert_eq!(items[1].path, "C:\\c.txt");
}

#[test]
fn kinds_are_exclusive() {
    let s = search("*".to_string());
    assert_eq!(Item::from_result(&s, &raw("C:\\", false, false, true)).unwrap().item_type, ItemType::Volume);
    assert_eq!(Item::from_result(&s, &raw("C:\\d", false, true, false)).unwrap().item_type, ItemType::Folder);
    assert_eq!(Item::from_result(&s, &raw("C:\\f", true, false, false)).unwrap().item_type, ItemType::File);
    assert_eq!(Item::from_result(&s, &raw("C:\\x", false, false, false)), None);
    assert_eq!(Item::from_result(&s, &raw("C:\\x", true, true, false)), None);
    assert_eq!(Item::from_result(&s, &raw("C:\\x", true, false, true)), None);
    assert_eq!(Item::from_result(&s, &raw("C:\\x", true, true, true)), None);
    let raws = vec![raw("C:\\a", true, true, false), file("C:\\b"), raw("C:\\c", false, false, false)];
    let items = s.collect_items(&raws);
    assert_eq!(items.len(), 1);
    assert_eq!(items[0].path, "C:\\b");
}

#[test]
fn collect_keeps_engine_order() {
    let s: Search = search("*".to_string());
    let raws = vec![file("C:\\z"), raw("C:\\y", false, true, false), file("C:\\a")];
    let paths: Vec<String> = s.collect_items(&raws).into_iter().map(|i| i.path).collect();
    assert_eq!(paths, vec!["C:\\z", "C:\\y", "C:\\a"]);
    assert!(s.collect_items(&Vec::new()).is_empty());
}
