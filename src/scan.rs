use vstd::prelude::*;
use crate::audit::{audit_permissions, shared_spec, stale_of};
use crate::model::{
    files_view, folders_view, FileInfo, FileInfoView, FolderInfo, FolderInfoView, RemoteItem,
    RemoteItemView, ScanResult,
};

verus! {

/// The views of a sequence of items.
pub open spec fn items_view(v: Seq<RemoteItem>) -> Seq<RemoteItemView> {
    v.map_values(|i: RemoteItem| i@)
}

/// The inventory entry of a file that reports a size.
pub open spec fn file_entry(item: RemoteItemView) -> FileInfoView {
    FileInfoView { id: item.id, size: item.size->0, name: item.name, shared: shared_spec(item) }
}

/// The inventory entry of a folder.
pub open spec fn folder_entry(item: RemoteItemView) -> FolderInfoView {
    FolderInfoView { id: item.id, name: item.name, shared: shared_spec(item) }
}

/// The inventory entries of the files among `items` that report a size, in
/// order; the others are skipped.
pub open spec fn level_files(items: Seq<RemoteItemView>) -> Seq<FileInfoView>
    decreases items.len(),
{
    if items.len() == 0 {
        Seq::empty()
    } else if items.last().size is Some {
        level_files(items.drop_last()).push(file_entry(items.last()))
    } else {
        level_files(items.drop_last())
    }
}

/// The revocations of one item: its identifier with each stale permission.
pub open spec fn item_revocations(item: RemoteItemView) -> Seq<(Seq<char>, Seq<char>)> {
    stale_of(item.perms).map_values(|p: Seq<char>| (item.id, p))
}

/// The revocations that auditing the sized files among `items` calls for, in order.
pub open spec fn level_revocations(items: Seq<RemoteItemView>) -> Seq<(Seq<char>, Seq<char>)>
    decreases items.len(),
{
    if items.len() == 0 {
        Seq::empty()
    } else if items.last().size is Some {
        level_revocations(items.drop_last()) + item_revocations(items.last())
    } else {
        level_revocations(items.drop_last())
    }
}

/// One child folder together with the scan of its contents.
pub struct ChildScan {
    pub folder: RemoteItem,
    pub contents: ScanResult,
}

impl ChildScan {
    pub fn new(folder: RemoteItem, contents: ScanResult) -> (r: ChildScan)
        ensures
            r.folder == folder,
            r.contents == contents,
    {
        ChildScan { folder, contents }
    }
}

/// The files of the children's scans, one child after the other.
pub open spec fn children_files(cs: Seq<ChildScan>) -> Seq<FileInfoView>
    decreases cs.len(),
{
    if cs.len() == 0 {
        Seq::empty()
    } else {
        children_files(cs.drop_last()) + files_view(cs.last().contents.files@)
    }
}

/// The entries of the child folders themselves, in order.
pub open spec fn children_folders(cs: Seq<ChildScan>) -> Seq<FolderInfoView> {
    cs.map_values(|c: ChildScan| folder_entry(c.folder@))
}

/// The files a scan reports: the sized files directly under the folder, then
/// the files of each child's scan.
pub open spec fn scan_files_spec(items: Seq<RemoteItemView>, cs: Seq<ChildScan>) -> Seq<FileInfoView> {
    level_files(items) + children_files(cs)
}

/// A permission to revoke on an item.
pub struct Revocation {
    pub item_id: String,
    pub permission_id: String,
}

/// The inventory entry of a file, or none where it reports no size.
pub fn file_info_of(item: &RemoteItem) -> (r: Option<FileInfo>)
    ensures
        match r {
            Some(f) => item@.size is Some && f@ == file_entry(item@),
            None => item@.size is None,
        },
{
    match &item.size {
        Some(size) => {
            let audit = audit_permissions(item);
            Some(FileInfo::new(item.id.clone(), size.clone(), item.name.clone(), audit.shared))
        },
        None => None,
    }
}

/// The inventory entry of a folder.
pub fn folder_info_of(item: &RemoteItem) -> (r: FolderInfo)
    ensures
        r@ == folder_entry(item@),
{
    let audit = audit_permissions(item);
    FolderInfo::new(item.id.clone(), item.name.clone(), audit.shared)
}

fn copy_file_info(f: &FileInfo) -> (r: FileInfo)
    ensures
        r@ == f@,
{
    FileInfo::new(f.id.clone(), f.size.clone(), f.name.clone(), f.shared)
}

/// The stale permissions of the sized files among `items`, in the order in
/// which auditing them revokes them.
pub fn file_revocations(items: &Vec<RemoteItem>) -> (r: Vec<Revocation>)
    ensures
        r@.map_values(|v: Revocation| (v.item_id@, v.permission_id@)) == level_revocations(
            items_view(items@),
        ),
{
    let ghost iv = items_view(items@);
    let mut out: Vec<Revocation> = Vec::new();
    let mut i: usize = 0;
    while i < items.len()
        invariant
            iv == items_view(items@),
            i <= items.len(),
            out@.map_values(|v: Revocation| (v.item_id@, v.permission_id@)) == level_revocations(
                iv.take(i as int),
            ),
        decreases items.len() - i,
    {
        let item = &items[i];
        assert(iv.take(i as int + 1).drop_last() =~= iv.take(i as int));
        assert(iv.take(i as int + 1).last() == item@);
        if item.size.is_some() {
            let audit = audit_permissions(item);
            let ghost before = out@.map_values(|v: Revocation| (v.item_id@, v.permission_id@));
            let mut k: usize = 0;
            while k < audit.revoke.len()
                invariant
                    k <= audit.revoke.len(),
                    audit.revoke.deep_view() == stale_of(item@.perms),
                    out@.map_values(|v: Revocation| (v.item_id@, v.permission_id@)) == before
                        + item_revocations(item@).take(k as int),
                decreases audit.revoke.len() - k,
            {
                let ghost old_out = out@;
                out.push(Revocation { item_id: item.id.clone(), permission_id: audit.revoke[k].clone() });
                assert(audit.revoke.deep_view()[k as int] == audit.revoke[k as int]@);
                assert(out@.map_values(|v: Revocation| (v.item_id@, v.permission_id@)) =~= old_out.map_values(
                    |v: Revocation| (v.item_id@, v.permission_id@),
                ).push((item.id@, audit.revoke[k as int]@)));
                assert(item_revocations(item@).take(k as int + 1) =~= item_revocations(item@).take(
                    k as int,
                ).push((item.id@, audit.revoke[k as int]@)));
                k = k + 1;
            }
            assert(item_revocations(item@).take(k as int) =~= item_revocations(item@));
        }
        i = i + 1;
    }
    assert(iv.take(items.len() as int) =~= iv);
    out
}

/// Assembles the scan of one folder. `items` lists the files directly under
/// it; `children` holds, for a recursive scan, each child folder with the
/// scan of its contents, and is empty otherwise. The files are the sized
/// items followed by every child's files; the folders are the children
/// themselves, never the children's own folders.
pub fn scan_level(items: &Vec<RemoteItem>, children: &Vec<ChildScan>) -> (r: ScanResult)
    ensures
        files_view(r.files@) == scan_files_spec(items_view(items@), children@),
        folders_view(r.folders@) == children_folders(children@),
{
    let ghost iv = items_view(items@);
    let mut files: Vec<FileInfo> = Vec::new();
    let mut i: usize = 0;
    while i < items.len()
        invariant
            iv == items_view(items@),
            i <= items.len(),
            files_view(files@) == level_files(iv.take(i as int)),
        decreases items.len() - i,
    {
        let item = &items[i];
        assert(iv.take(i as int + 1).drop_last() =~= iv.take(i as int));
        assert(iv.take(i as int + 1).last() == item@);
        match file_info_of(item) {
            Some(f) => {
                let ghost before = files@;
                files.push(f);
                assert(files_view(files@) =~= files_view(before).push(f@));
            },
            None => {},
        }
        i = i + 1;
    }
    assert(iv.take(items.len() as int) =~= iv);
    let mut folders: Vec<FolderInfo> = Vec::new();
    let mut j: usize = 0;
    while j < children.len()
        invariant
            j <= children.len(),
            files_view(files@) == level_files(iv) + children_files(children@.take(j as int)),
            folders_view(folders@) == children_folders(children@.take(j as int)),
        decreases children.len() - j,
    {
        let child = &children[j];
        let ghost base = files_view(files@);
        let mut k: usize = 0;
        while k < child.contents.files.len()
            invariant
                k <= child.contents.files.len(),
                files_view(files@) == base + files_view(child.contents.files@.take(k as int)),
            decreases child.contents.files.len() - k,
        {
            let ghost before = files@;
            let f = copy_file_info(&child.contents.files[k]);
            files.push(f);
            assert(files_view(files@) =~= files_view(before).push(f@));
            assert(files_view(child.contents.files@.take(k as int + 1)) =~= files_view(
                child.contents.files@.take(k as int),
            ).push(f@));
            k = k + 1;
        }
        assert(child.contents.files@.take(k as int) =~= child.contents.files@);
        assert(children@.take(j as int + 1).drop_last() =~= children@.take(j as int));
        let ghost fbefore = folders@;
        let d = folder_info_of(&child.folder);
        folders.push(d);
        assert(folders_view(folders@) =~= folders_view(fbefore).push(d@));
        assert(children_folders(children@.take(j as int + 1)) =~= children_folders(
            children@.take(j as int),
        ).push(d@));
        j = j + 1;
    }
    assert(children@.take(children.len() as int) =~= children@);
    ScanResult::new(files, folders)
}

} // verus!
