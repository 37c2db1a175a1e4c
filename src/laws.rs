use vstd::prelude::*;
use crate::model::{files_view, FileInfoView, FolderInfoView, RemoteItemView};
use crate::scan::{
    children_files, children_folders, file_entry, folder_entry, level_files, scan_files_spec,
    ChildScan,
};
use crate::upload::{last_match, lemma_last_match, plan_spec, UploadPlanView};

verus! {

/// `f` is the inventory entry of one of the sized items of `items`.
pub open spec fn is_entry_of(items: Seq<RemoteItemView>, f: FileInfoView) -> bool {
    exists|i: int| 0 <= i < items.len() && (#[trigger] items[i]).size is Some && f == file_entry(items[i])
}

proof fn lemma_level_files_members(items: Seq<RemoteItemView>)
    ensures
        forall|j: int|
            0 <= j < level_files(items).len() ==> is_entry_of(items, #[trigger] level_files(items)[j]),
        forall|i: int|
            0 <= i < items.len() && (#[trigger] items[i]).size is Some ==> level_files(
                items,
            ).contains(file_entry(items[i])),
    decreases items.len(),
{
    if items.len() > 0 {
        let pre = items.drop_last();
        lemma_level_files_members(pre);
        let lf = level_files(items);
        let lp = level_files(pre);
        assert forall|j: int|
            0 <= j < level_files(items).len() implies is_entry_of(items, #[trigger] level_files(items)[j]) by {
            if j < lp.len() {
                assert(is_entry_of(pre, lp[j]));
                let i = choose|i: int|
                    0 <= i < pre.len() && (#[trigger] pre[i]).size is Some && lp[j]
                        == file_entry(pre[i]);
                assert(pre[i] == items[i]);
                assert(lf[j] == lp[j]);
                assert(items[i].size is Some && lf[j] == file_entry(items[i]));
            } else {
                let i = items.len() - 1;
                assert(items[i].size is Some && lf[j] == file_entry(items[i]));
            }
        }
        assert forall|i: int| 0 <= i < items.len() && (#[trigger] items[i]).size is Some implies lf.contains(
            file_entry(items[i]),
        ) by {
            if i < items.len() - 1 {
                assert(pre[i] == items[i]);
                let k = choose|k: int| 0 <= k < lp.len() && lp[k] == file_entry(pre[i]);
                assert(lf[k] == lp[k]);
            } else {
                assert(lf[lf.len() - 1] == file_entry(items[i]));
            }
        }
    }
}

proof fn lemma_children_files_members(cs: Seq<ChildScan>)
    ensures
        forall|c: int, f: FileInfoView|
            0 <= c < cs.len() && #[trigger] files_view(cs[c].contents.files@).contains(f)
                ==> children_files(cs).contains(f),
    decreases cs.len(),
{
    if cs.len() > 0 {
        let pre = cs.drop_last();
        lemma_children_files_members(pre);
        let last = files_view(cs.last().contents.files@);
        assert forall|c: int, f: FileInfoView|
            0 <= c < cs.len() && #[trigger] files_view(cs[c].contents.files@).contains(
                f,
            ) implies children_files(cs).contains(f) by {
            let all = children_files(cs);
            assert(all == children_files(pre) + last);
            if c < cs.len() - 1 {
                assert(pre[c] == cs[c]);
                let k = choose|k: int| 0 <= k < children_files(pre).len() && children_files(pre)[k] == f;
                assert(all[k] == f);
            } else {
                let k = choose|k: int| 0 <= k < last.len() && last[k] == f;
                assert(all[children_files(pre).len() + k] == f);
            }
        }
    }
}

/// A scan that does not descend reports no folders, and as files exactly the
/// items directly under the folder that report a size, each marked shared
/// exactly when it carries the link-sharing sentinel.
pub proof fn lemma_shallow_scan(items: Seq<RemoteItemView>)
    ensures
        scan_files_spec(items, Seq::empty()) == level_files(items),
        children_folders(Seq::empty()) == Seq::<FolderInfoView>::empty(),
        forall|j: int|
            0 <= j < level_files(items).len() ==> is_entry_of(items, #[trigger] level_files(items)[j]),
        forall|i: int|
            0 <= i < items.len() && (#[trigger] items[i]).size is Some ==> level_files(
                items,
            ).contains(file_entry(items[i])),
{
    lemma_level_files_members(items);
    assert(children_files(Seq::empty()) == Seq::<FileInfoView>::empty());
    assert(level_files(items) + Seq::<FileInfoView>::empty() =~= level_files(items));
    assert(children_folders(Seq::empty()) =~= Seq::<FolderInfoView>::empty());
}

/// A recursive scan reports every file that a shallow scan of the same
/// folder reports, and every file of each child's own scan; its folders are
/// exactly the child folders, in their listing order, and no grandchildren.
pub proof fn lemma_deep_scan(
    items: Seq<RemoteItemView>,
    cs: Seq<ChildScan>,
    folder_items: Seq<RemoteItemView>,
)
    requires
        cs.len() == folder_items.len(),
        forall|i: int| 0 <= i < cs.len() ==> (#[trigger] cs[i]).folder@ == folder_items[i],
    ensures
        forall|f: FileInfoView|
            level_files(items).contains(f) ==> scan_files_spec(items, cs).contains(f),
        forall|c: int, f: FileInfoView|
            0 <= c < cs.len() && #[trigger] files_view(cs[c].contents.files@).contains(f)
                ==> scan_files_spec(items, cs).contains(f),
        children_folders(cs) == folder_items.map_values(|d: RemoteItemView| folder_entry(d)),
{
    lemma_children_files_members(cs);
    let all = scan_files_spec(items, cs);
    let lf = level_files(items);
    assert forall|f: FileInfoView| lf.contains(f) implies all.contains(f) by {
        let k = choose|k: int| 0 <= k < lf.len() && lf[k] == f;
        assert(all[k] == f);
    }
    assert forall|c: int, f: FileInfoView|
        0 <= c < cs.len() && #[trigger] files_view(cs[c].contents.files@).contains(f) implies all.contains(
        f,
    ) by {
        let cf = children_files(cs);
        assert(cf.contains(f));
        let k = choose|k: int| 0 <= k < cf.len() && cf[k] == f;
        assert(all[lf.len() + k] == f);
    }
    assert(children_folders(cs) =~= folder_items.map_values(|d: RemoteItemView| folder_entry(d)));
}

/// Uploading into a folder that already holds an item of the file's name,
/// with none of that name after it in the listing, updates that item.
pub proof fn lemma_existing_item_updated(
    items: Seq<RemoteItemView>,
    name: Seq<char>,
    dest: Option<Seq<char>>,
    k: int,
)
    requires
        0 <= k < items.len(),
        items[k].name == name,
        forall|j: int| k < j < items.len() ==> (#[trigger] items[j]).name != name,
    ensures
        plan_spec(items, name, dest) == (UploadPlanView::Update { id: items[k].id, name }),
{
    lemma_last_match(items, name);
}

/// Uploading the same file twice updates on the second upload the item that
/// the first one produced. After a first upload that created `x`, the
/// listing holds `x` somewhere among the earlier items; after one that
/// updated an item, the listing is unchanged and `x` is that item.
pub proof fn lemma_upload_twice(
    first: Seq<RemoteItemView>,
    name: Seq<char>,
    dest: Option<Seq<char>>,
    x: RemoteItemView,
    k: int,
    second: Seq<RemoteItemView>,
)
    requires
        x.name == name,
        0 <= k <= first.len(),
        match plan_spec(first, name, dest) {
            UploadPlanView::Create { .. } => second == first.insert(k, x),
            UploadPlanView::Update { id, .. } => second == first && x.id == id,
        },
    ensures
        plan_spec(second, name, dest) == (UploadPlanView::Update { id: x.id, name }),
{
    lemma_last_match(first, name);
    lemma_last_match(second, name);
    match last_match(first, name) {
        None => {
            assert(second[k] == x);
            assert forall|j: int| k < j < second.len() implies (#[trigger] second[j]).name != name by {
                assert(second[j] == first[j - 1]);
            }
            lemma_existing_item_updated(second, name, dest, k);
        },
        Some(i) => {},
    }
}

} // verus!
