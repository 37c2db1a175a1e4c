use gdrive_sync::audit::{audit_permissions, is_link_permission, is_stale_permission, ANYONE_WITH_LINK};
use gdrive_sync::listing::{
    files_query, folders_query, list_query, root_files_query, root_folders_query, PageCollector,
    LIST_FIELDS, PAGE_SIZE,
};
use gdrive_sync::model::{FileInfo, FolderInfo, RemoteItem, ScanResult};
use gdrive_sync::scan::{file_info_of, file_revocations, folder_info_of, scan_level, ChildScan};
use gdrive_sync::upload::{find_existing, plan_upload, upload_listing_query, upload_outcome, UploadPlan};

fn s(x: &str) -> String {
    x.to_string()
}

fn file(id: &str, name: &str, size: Option<&str>, perms: Option<Vec<&str>>) -> RemoteItem {
    RemoteItem::new(
        s(id),
        s(name),
        size.map(s),
        perms.map(|v| v.into_iter().map(s).collect()),
    )
}

#[test]
fn audit_revokes_stale_and_detects_sharing() {
    let item = file("f1", "a.txt", Some("10"), Some(vec!["1234k", "anyoneWithLink", "55"]));
    let audit = audit_permissions(&item);
    assert_eq!(audit.revoke, vec![s("1234k")]);
    assert!(audit.shared);
}

#[test]
fn lone_k_is_stale() {
    assert!(is_stale_permission("k"));
}

#[test]
fn stale_pattern_shapes() {
    assert!(is_stale_permission("0k"));
    assert!(is_stale_permission("987654321k"));
    assert!(!is_stale_permission(""));
    assert!(!is_stale_permission("55"));
    assert!(!is_stale_permission("12a4k"));
    assert!(!is_stale_permission("1234K"));
    assert!(!is_stale_permission("anyoneWithLink"));
    assert!(!is_stale_permission("k1"));
}

#[test]
fn link_sentinel_is_exact() {
    assert!(is_link_permission(&s(ANYONE_WITH_LINK)));
    assert!(!is_link_permission(&s("anyoneWithLinkX")));
    assert!(!is_link_permission(&s("anyone")));
}

#[test]
fn audit_without_permissions() {
    let none = audit_permissions(&file("f", "n", Some("1"), None));
    assert!(none.revoke.is_empty());
    assert!(!none.shared);
    let empty = audit_permissions(&file("f", "n", Some("1"), Some(vec![])));
    assert!(empty.revoke.is_empty());
    assert!(!empty.shared);
}

#[test]
fn audit_revokes_every_stale_entry_in_order() {
    let item = file("f", "n", None, Some(vec!["2k", "user1", "k", "anyoneWithLink", "3k"]));
    let audit = audit_permissions(&item);
    assert_eq!(audit.revoke, vec![s("2k"), s("k"), s("3k")]);
    assert!(audit.shared);
}

#[test]
fn stale_entries_alone_do_not_share() {
    let audit = audit_permissions(&file("f", "n", None, Some(vec!["11k", "22k"])));
    assert_eq!(audit.revoke.len(), 2);
    assert!(!audit.shared);
}

#[test]
fn query_with_filter() {
    assert_eq!(
        folders_query("abc"),
        "\"abc\" in parents and mimeType contains \"application/vnd.google-apps.folder\" and trashed = false"
    );
    assert_eq!(
        files_query("abc"),
        "\"abc\" in parents and not mimeType contains \"application/vnd.google-apps.folder\" and trashed = false"
    );
}

#[test]
fn query_without_filter() {
    assert_eq!(list_query("x", None), "\"x\" in parents and  and trashed = false");
    assert_eq!(list_query("x", Some("name = 'a'")), "\"x\" in parents and name = 'a' and trashed = false");
}

#[test]
fn root_queries() {
    assert_eq!(root_folders_query(), folders_query("root"));
    assert_eq!(root_files_query(), files_query("root"));
    assert_eq!(upload_listing_query(&None), files_query("root"));
    assert_eq!(upload_listing_query(&Some(s("D"))), files_query("D"));
}

#[test]
fn listing_constants() {
    assert_eq!(PAGE_SIZE, 1000);
    assert_eq!(LIST_FIELDS, "files(id,name,size,permissionIds),nextPageToken");
}

#[test]
fn pages_accumulate_until_no_cursor() {
    let mut pages = PageCollector::new();
    assert!(!pages.is_finished());
    assert_eq!(pages.next_cursor(), None);
    pages.accept_page(vec![file("a", "a", None, None), file("b", "b", None, None)], Some(s("c1")));
    assert!(!pages.is_finished());
    assert_eq!(pages.next_cursor(), Some(s("c1")));
    pages.accept_page(vec![file("c", "c", None, None)], None);
    assert!(pages.is_finished());
    let ids: Vec<String> = pages.into_items().into_iter().map(|i| i.id).collect();
    assert_eq!(ids, vec![s("a"), s("b"), s("c")]);
}

#[test]
fn shallow_scan_keeps_sized_files_only() {
    let items = vec![
        file("f1", "one", Some("5"), Some(vec!["anyoneWithLink"])),
        file("doc", "native", None, Some(vec!["anyoneWithLink"])),
        file("f2", "two", Some("7"), Some(vec!["55"])),
    ];
    let r = scan_level(&items, &Vec::new());
    assert!(r.folders.is_empty());
    let got: Vec<(String, String, String, bool)> =
        r.files.iter().map(|f| (f.id.clone(), f.size.clone(), f.name.clone(), f.shared)).collect();
    assert_eq!(
        got,
        vec![(s("f1"), s("5"), s("one"), true), (s("f2"), s("7"), s("two"), false)]
    );
}

#[test]
fn deep_scan_splices_files_but_not_grandchild_folders() {
    let grandchild = ScanResult::new(
        vec![FileInfo::new(s("g1"), s("1"), s("deep"), false)],
        vec![],
    );
    let child_contents = ScanResult::new(
        vec![
            FileInfo::new(s("c1"), s("2"), s("mid"), false),
            FileInfo::new(s("g1"), s("1"), s("deep"), false),
        ],
        vec![FolderInfo::new(s("gdir"), s("grand"), false)],
    );
    assert_eq!(grandchild.files.len(), 1);
    let items = vec![file("f1", "top", Some("3"), None)];
    let folder = file("d1", "sub", None, Some(vec!["anyoneWithLink", "9k"]));
    let children = vec![ChildScan::new(folder, child_contents)];
    let deep = scan_level(&items, &children);
    let shallow = scan_level(&items, &Vec::new());
    let deep_ids: Vec<String> = deep.files.iter().map(|f| f.id.clone()).collect();
    assert_eq!(deep_ids, vec![s("f1"), s("c1"), s("g1")]);
    for f in &shallow.files {
        assert!(deep_ids.contains(&f.id));
    }
    assert_eq!(deep.folders.len(), 1);
    assert_eq!(deep.folders[0].id, "d1");
    assert_eq!(deep.folders[0].name, "sub");
    assert!(deep.folders[0].shared);
}

#[test]
fn entries_of_items() {
    assert!(file_info_of(&file("x", "n", None, None)).is_none());
    let f = file_info_of(&file("x", "n", Some("42"), Some(vec!["anyoneWithLink"]))).unwrap();
    assert_eq!((f.id, f.size, f.name, f.shared), (s("x"), s("42"), s("n"), true));
    let d = folder_info_of(&file("d", "dir", None, Some(vec!["u"])));
    assert_eq!((d.id, d.name, d.shared), (s("d"), s("dir"), false));
}

#[test]
fn revocations_follow_listing_order() {
    let items = vec![
        file("a", "a", Some("1"), Some(vec!["1k", "anyoneWithLink"])),
        file("b", "b", None, Some(vec!["2k"])),
        file("c", "c", Some("1"), Some(vec!["3k", "x", "4k"])),
    ];
    let got: Vec<(String, String)> =
        file_revocations(&items).into_iter().map(|r| (r.item_id, r.permission_id)).collect();
    assert_eq!(got, vec![(s("a"), s("1k")), (s("c"), s("3k")), (s("c"), s("4k"))]);
}

#[test]
fn upload_creates_when_absent() {
    let listing = vec![file("o", "other.bin", Some("1"), None)];
    match plan_upload(&listing, &s("report.bin"), &Some(s("D"))) {
        UploadPlan::Create { name, parents } => {
            assert_eq!(name, "report.bin");
            assert_eq!(parents, Some(vec![s("D")]));
        }
        UploadPlan::Update { .. } => panic!("expected a new item"),
    }
    let created = file("newId", "report.bin", Some("9"), None);
    assert_eq!(upload_outcome(&created), (s("newId"), false));
}

#[test]
fn upload_to_root_has_no_parent() {
    match plan_upload(&Vec::new(), &s("report.bin"), &None) {
        UploadPlan::Create { name, parents } => {
            assert_eq!(name, "report.bin");
            assert_eq!(parents, None);
        }
        UploadPlan::Update { .. } => panic!("expected a new item"),
    }
}

#[test]
fn upload_updates_existing_item() {
    let listing = vec![
        file("x1", "other.bin", Some("1"), None),
        file("r1", "report.bin", Some("5"), None),
    ];
    match plan_upload(&listing, &s("report.bin"), &Some(s("D"))) {
        UploadPlan::Update { id, name } => {
            assert_eq!(id, "r1");
            assert_eq!(name, "report.bin");
        }
        UploadPlan::Create { .. } => panic!("expected an update"),
    }
}

#[test]
fn second_upload_hits_update() {
    let mut listing = vec![file("x1", "other.bin", Some("1"), None)];
    let first = plan_upload(&listing, &s("report.bin"), &Some(s("D")));
    assert!(matches!(first, UploadPlan::Create { .. }));
    listing.insert(0, file("new1", "report.bin", Some("3"), None));
    let second = plan_upload(&listing, &s("report.bin"), &Some(s("D")));
    match second {
        UploadPlan::Update { id, .. } => assert_eq!(id, "new1"),
        UploadPlan::Create { .. } => panic!("expected an update"),
    }
}

#[test]
fn last_duplicate_wins() {
    let listing = vec![
        file("a", "report.bin", Some("1"), None),
        file("b", "x", Some("1"), None),
        file("c", "report.bin", Some("1"), None),
    ];
    assert_eq!(find_existing(&listing, &s("report.bin")), Some(2));
    assert_eq!(find_existing(&listing, &s("missing")), None);
}

#[test]
fn shared_upload_outcome() {
    let item = file("id9", "f", Some("1"), Some(vec!["7k", "anyoneWithLink"]));
    assert_eq!(upload_outcome(&item), (s("id9"), true));
}
