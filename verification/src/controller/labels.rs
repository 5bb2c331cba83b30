//! The labels of managed objects.

use crate::common::content::Content;
use crate::common::string_map::{Labels, StringMap};
use crate::common::text::owned;
use crate::objects::{ObjectMeta, ObjectMetaView, OwnerReference, OwnerReferenceView};
use vstd::prelude::*;

verus! {

/// The three labels that identify the objects of a bot: each carries the
/// bot's name.
pub open spec fn identifying_labels(name: Seq<char>) -> Labels {
    Map::empty().insert("freqtrade.io/bot-name"@, name).insert("app.kubernetes.io/name"@, name).insert(
        "app.kubernetes.io/instance"@,
        name,
    )
}

/// The three labels that describe every managed object.
pub open spec fn metadata_labels() -> Labels {
    Map::empty().insert("app.kubernetes.io/component"@, "bot"@).insert(
        "app.kubernetes.io/part-of"@,
        "freqtrade"@,
    ).insert("app.kubernetes.io/managed-by"@, "freqtrade-operator"@)
}

/// The labels of a managed object: the user's, then the identifying and the
/// describing labels, which win over the user's.
pub open spec fn managed_labels(user: Option<Labels>, name: Seq<char>) -> Labels {
    let base = match user {
        Some(labels) => labels,
        None => Map::empty(),
    };
    base.union_prefer_right(identifying_labels(name)).union_prefer_right(metadata_labels())
}

/// The metadata of a managed object.
pub open spec fn managed_meta(
    name: Seq<char>,
    namespace: Seq<char>,
    owner_ref: OwnerReferenceView,
    annotations: Option<Labels>,
    user_labels: Option<Labels>,
) -> ObjectMetaView {
    ObjectMetaView {
        name: Some(name),
        namespace: Some(namespace),
        uid: None,
        owner_references: Some(seq![owner_ref]),
        annotations: annotations,
        labels: Some(managed_labels(user_labels, name)),
        finalizers: None,
        deletion_timestamp: None,
    }
}

/// The metadata of the pod template.
pub open spec fn template_meta(
    name: Seq<char>,
    annotations: Option<Labels>,
    user_labels: Option<Labels>,
) -> ObjectMetaView {
    ObjectMetaView {
        name: None,
        namespace: None,
        uid: None,
        owner_references: None,
        annotations: annotations,
        labels: Some(managed_labels(user_labels, name)),
        finalizers: None,
        deletion_timestamp: None,
    }
}

/// Builds the identifying labels.
pub fn make_identifying_labels(name: &str) -> (r: StringMap)
    ensures
        r.deep_view() == identifying_labels(name@),
{
    let mut labels = StringMap::new();
    labels.insert(owned("freqtrade.io/bot-name"), owned(name));
    labels.insert(owned("app.kubernetes.io/name"), owned(name));
    labels.insert(owned("app.kubernetes.io/instance"), owned(name));
    labels
}

/// Builds the describing labels.
pub fn make_metadata_labels() -> (r: StringMap)
    ensures
        r.deep_view() == metadata_labels(),
{
    let mut labels = StringMap::new();
    labels.insert(owned("app.kubernetes.io/component"), owned("bot"));
    labels.insert(owned("app.kubernetes.io/part-of"), owned("freqtrade"));
    labels.insert(owned("app.kubernetes.io/managed-by"), owned("freqtrade-operator"));
    labels
}

/// Builds the labels of a managed object.
pub fn make_managed_labels(user: &Option<StringMap>, name: &str) -> (r: StringMap)
    ensures
        r.deep_view() == managed_labels(user.deep_view(), name@),
{
    let mut labels = match user {
        Some(l) => l.dup(),
        None => StringMap::new(),
    };
    let identifying = make_identifying_labels(name);
    let describing = make_metadata_labels();
    labels.extend(&identifying);
    labels.extend(&describing);
    labels
}

/// Builds the metadata of a managed object.
pub fn make_managed_meta(
    name: &str,
    namespace: &str,
    owner_ref: OwnerReference,
    annotations: &Option<StringMap>,
    user_labels: &Option<StringMap>,
) -> (r: ObjectMeta)
    ensures
        r.deep_view() == managed_meta(
            name@,
            namespace@,
            owner_ref.deep_view(),
            annotations.deep_view(),
            user_labels.deep_view(),
        ),
{
    let mut owners: Vec<OwnerReference> = Vec::new();
    crate::common::content::push_item(&mut owners, owner_ref);
    assert(owners.deep_view() =~= seq![owner_ref.deep_view()]);
    ObjectMeta {
        name: Some(owned(name)),
        namespace: Some(owned(namespace)),
        uid: None,
        owner_references: Some(owners),
        annotations: annotations.dup(),
        labels: Some(make_managed_labels(user_labels, name)),
        finalizers: None,
        deletion_timestamp: None,
    }
}

/// Builds the metadata of the pod template.
pub fn make_template_meta(name: &str, annotations: &Option<StringMap>, user_labels: &Option<StringMap>) -> (r:
    ObjectMeta)
    ensures
        r.deep_view() == template_meta(name@, annotations.deep_view(), user_labels.deep_view()),
{
    ObjectMeta {
        name: None,
        namespace: None,
        uid: None,
        owner_references: None,
        annotations: annotations.dup(),
        labels: Some(make_managed_labels(user_labels, name)),
        finalizers: None,
        deletion_timestamp: None,
    }
}

/// The identifying labels are pairwise distinct from the describing ones,
/// so every managed object carries all three identifying labels with the
/// bot's name, whatever labels the user gave.
pub proof fn lemma_managed_labels_identify(user: Option<Labels>, name: Seq<char>)
    ensures
        managed_labels(user, name).contains_pair("freqtrade.io/bot-name"@, name),
        managed_labels(user, name).contains_pair("app.kubernetes.io/name"@, name),
        managed_labels(user, name).contains_pair("app.kubernetes.io/instance"@, name),
        managed_labels(user, name).contains_pair("app.kubernetes.io/component"@, "bot"@),
        managed_labels(user, name).contains_pair("app.kubernetes.io/part-of"@, "freqtrade"@),
        managed_labels(user, name).contains_pair("app.kubernetes.io/managed-by"@, "freqtrade-operator"@),
{
    reveal_strlit("freqtrade.io/bot-name");
    reveal_strlit("app.kubernetes.io/name");
    reveal_strlit("app.kubernetes.io/instance");
    reveal_strlit("app.kubernetes.io/component");
    reveal_strlit("app.kubernetes.io/part-of");
    reveal_strlit("app.kubernetes.io/managed-by");
    let a = "freqtrade.io/bot-name"@;
    let b = "app.kubernetes.io/name"@;
    let c = "app.kubernetes.io/instance"@;
    let d = "app.kubernetes.io/component"@;
    let e = "app.kubernetes.io/part-of"@;
    let f = "app.kubernetes.io/managed-by"@;
    assert(a[0] == 'f' && b[0] == 'a' && c[0] == 'a' && d[0] == 'a' && e[0] == 'a' && f[0] == 'a');
    assert(b.len() == 22 && c.len() == 26 && d.len() == 27 && e.len() == 25 && f.len() == 28);
}

} // verus!
