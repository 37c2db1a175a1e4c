use vstd::prelude::*;
use crate::audit::{audit_permissions, shared_spec};
use crate::listing::{files_query, query_spec, root_files_query, FILES_ONLY, ROOT_FOLDER};
use crate::model::{RemoteItem, RemoteItemView};
use crate::scan::items_view;

verus! {

/// The index of the last item named `name`, if any.
pub open spec fn last_match(items: Seq<RemoteItemView>, name: Seq<char>) -> Option<int>
    decreases items.len(),
{
    if items.len() == 0 {
        None
    } else if items.last().name == name {
        Some(items.len() - 1)
    } else {
        last_match(items.drop_last(), name)
    }
}

/// What `last_match` finds: an item of that name with none after it, or,
/// when it finds nothing, no item of that name at all.
pub proof fn lemma_last_match(items: Seq<RemoteItemView>, name: Seq<char>)
    ensures
        match last_match(items, name) {
            Some(i) => 0 <= i < items.len() && items[i].name == name && forall|j: int|
                i < j < items.len() ==> (#[trigger] items[j]).name != name,
            None => forall|j: int| 0 <= j < items.len() ==> (#[trigger] items[j]).name != name,
        },
    decreases items.len(),
{
    if items.len() > 0 {
        lemma_last_match(items.drop_last(), name);
        if items.last().name != name {
            assert forall|j: int| 0 <= j < items.len() - 1 implies items[j] == items.drop_last()[j] by {}
        }
    }
}

/// What an upload does remotely.
pub enum UploadPlan {
    /// Replace the content of an existing item, re-sending its name.
    Update { id: String, name: String },
    /// Create a new item, under `parents` when a destination was given.
    Create { name: String, parents: Option<Vec<String>> },
}

/// The mathematical value of an `UploadPlan`.
pub enum UploadPlanView {
    Update { id: Seq<char>, name: Seq<char> },
    Create { name: Seq<char>, parents: Option<Seq<Seq<char>>> },
}

impl View for UploadPlan {
    type V = UploadPlanView;

    open spec fn view(&self) -> UploadPlanView {
        match self {
            UploadPlan::Update { id, name } => UploadPlanView::Update { id: id@, name: name@ },
            UploadPlan::Create { name, parents } => UploadPlanView::Create {
                name: name@,
                parents: match parents {
                    Some(p) => Some(p.deep_view()),
                    None => None,
                },
            },
        }
    }
}

/// The destination as a value.
pub open spec fn dest_view(dest: Option<String>) -> Option<Seq<char>> {
    match dest {
        Some(d) => Some(d@),
        None => None,
    }
}

/// The upload of a file named `name` into a folder whose files are `items`:
/// the last item of that name is updated; without one, a new item is
/// created, with the destination as its sole parent when there is one.
pub open spec fn plan_spec(
    items: Seq<RemoteItemView>,
    name: Seq<char>,
    dest: Option<Seq<char>>,
) -> UploadPlanView {
    match last_match(items, name) {
        Some(i) => UploadPlanView::Update { id: items[i].id, name: items[i].name },
        None => UploadPlanView::Create {
            name,
            parents: match dest {
                Some(d) => Some(seq![d]),
                None => None,
            },
        },
    }
}

/// The query that lists the files of the upload's destination, or of the
/// root when none is given.
pub fn upload_listing_query(dest: &Option<String>) -> (r: String)
    ensures
        r@ == query_spec(
            match dest {
                Some(d) => d@,
                None => ROOT_FOLDER@,
            },
            FILES_ONLY@,
        ),
{
    match dest {
        Some(d) => files_query(d.as_str()),
        None => root_files_query(),
    }
}

/// The index of the last item of `items` named `name`.
pub fn find_existing(items: &Vec<RemoteItem>, name: &String) -> (r: Option<usize>)
    ensures
        match r {
            Some(i) => last_match(items_view(items@), name@) == Some(i as int),
            None => last_match(items_view(items@), name@) is None,
        },
{
    let ghost iv = items_view(items@);
    let mut found: Option<usize> = None;
    let mut i: usize = 0;
    while i < items.len()
        invariant
            iv == items_view(items@),
            i <= items.len(),
            match found {
                Some(k) => last_match(iv.take(i as int), name@) == Some(k as int),
                None => last_match(iv.take(i as int), name@) is None,
            },
        decreases items.len() - i,
    {
        assert(iv.take(i as int + 1).drop_last() =~= iv.take(i as int));
        assert(iv.take(i as int + 1).last() == items[i as int]@);
        if items[i].name == *name {
            found = Some(i);
        }
        i = i + 1;
    }
    assert(iv.take(items.len() as int) =~= iv);
    found
}

/// Decides between updating the item already named `name` in the
/// destination's listing and creating a new one.
pub fn plan_upload(items: &Vec<RemoteItem>, name: &String, dest: &Option<String>) -> (r: UploadPlan)
    ensures
        r@ == plan_spec(items_view(items@), name@, dest_view(*dest)),
{
    match find_existing(items, name) {
        Some(i) => {
            proof {
                lemma_last_match(items_view(items@), name@);
            }
            let item = &items[i];
            UploadPlan::Update { id: item.id.clone(), name: item.name.clone() }
        },
        None => {
            let parents = match dest {
                Some(d) => {
                    let mut v: Vec<String> = Vec::new();
                    v.push(d.clone());
                    assert(v.deep_view() =~= seq![d@]);
                    Some(v)
                },
                None => None,
            };
            UploadPlan::Create { name: name.clone(), parents }
        },
    }
}

/// What an upload reports: the identifier of the resulting item and whether
/// it is link-shared.
pub fn upload_outcome(item: &RemoteItem) -> (r: (String, bool))
    ensures
        r.0@ == item@.id,
        r.1 == shared_spec(item@),
{
    let audit = audit_permissions(item);
    (item.id.clone(), audit.shared)
}

} // verus!
