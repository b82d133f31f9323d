//! The job graph and the orchestrator's decisions: whether an item retags or
//! builds an index, which request each source starts with, which targets a
//! manifest must be replicated to, where a document is published, and how
//! per-unit outcomes aggregate.

use vstd::prelude::*;

use crate::coord::{
    resolve_source_repo, resolve_target_repo, spec_resolve_repo, CoordView, ImageCoordinate,
};
use crate::error::PublishError;
use crate::registry::{manifest_url, spec_manifest_url, ManifestPut, PutView};

verus! {

/// One unit of publish work: one or more sources, one or more targets.
/// Exactly one source means retag semantics; two or more mean index
/// semantics; zero sources or zero targets is a configuration error.
#[derive(Debug, Clone)]
pub struct PublishItem {
    pub sources: Vec<ImageCoordinate>,
    pub targets: Vec<ImageCoordinate>,
}

/// A parsed job: an optional default repository and the items to publish.
#[derive(Debug, Clone)]
pub struct Job {
    pub repo: Option<String>,
    pub items: Vec<PublishItem>,
}

/// How an item is processed.
#[derive(Debug, Clone, Copy, PartialEq, Eq, Structural)]
pub enum ItemMode {
    /// One source: its manifest bytes are republished verbatim under every
    /// target tag.
    Retag,
    /// Two or more sources: they are combined into one manifest index.
    Index,
}

/// Decides how an item is processed, failing fast on an item with no
/// sources or no targets before any network call.
pub fn classify_item(item: &PublishItem) -> (r: Result<ItemMode, PublishError>)
    ensures
        r is Ok <==> item.sources@.len() > 0 && item.targets@.len() > 0,
        r matches Ok(m) ==> (m is Retag <==> item.sources@.len() == 1),
        r matches Err(e) ==> (e matches PublishError::Configuration { message }
            && message@ == "an item needs at least one source and one target"@),
{
    if item.sources.len() == 0 || item.targets.len() == 0 {
        Err(
            PublishError::Configuration {
                message: "an item needs at least one source and one target".to_owned(),
            },
        )
    } else if item.sources.len() == 1 {
        Ok(ItemMode::Retag)
    } else {
        Ok(ItemMode::Index)
    }
}

/// Resolves a source coordinate and builds the GET request URL for its
/// manifest. A coordinate with no repository and no job-level default fails
/// with a configuration error before any network call.
pub fn source_manifest_request(
    region: &str,
    source: &ImageCoordinate,
    default_repo: &Option<String>,
) -> (r: Result<(String, String), PublishError>)
    ensures
        r is Err <==> source@.repo is None && default_repo.deep_view() is None,
        r matches Ok((repo, url)) ==> Some(repo@) == spec_resolve_repo(
            source@.repo,
            default_repo.deep_view(),
        ) && url@ == spec_manifest_url(region@, repo@, source@.name, source@.tag),
        r matches Err(e) ==> (e matches PublishError::Configuration { message }
            && message@ == "source repo not set"@),
{
    let repo = resolve_source_repo(source, default_repo)?;
    let url = manifest_url(region, repo.as_str(), source.name.as_str(), source.tag.as_str());
    Ok((repo, url))
}

/// The replication PUTs for one source's manifest: one digest-addressed PUT
/// per target whose repository or name differs from the source's, in target
/// order, each carrying the manifest bytes verbatim.
pub open spec fn spec_replication_puts(
    targets: Seq<CoordView>,
    default_repo: Option<Seq<char>>,
    src_repo: Seq<char>,
    src_name: Seq<char>,
    digest: Seq<char>,
    content_type: Seq<char>,
    body: Seq<u8>,
) -> Seq<PutView>
    decreases targets.len(),
{
    if targets.len() == 0 {
        seq![]
    } else {
        let rest = spec_replication_puts(
            targets.drop_last(),
            default_repo,
            src_repo,
            src_name,
            digest,
            content_type,
            body,
        );
        let t = targets.last();
        match spec_resolve_repo(t.repo, default_repo) {
            Some(repo) => if repo != src_repo || t.name != src_name {
                rest + seq![
                    PutView {
                        repo,
                        name: t.name,
                        reference: digest,
                        content_type,
                        body,
                    },
                ]
            } else {
                rest
            },
            None => rest,
        }
    }
}

/// Plans the replication of one source's manifest. A target whose repository
/// and name coincide with the source's is skipped: the bytes are already
/// stored there. Fails with a configuration error exactly when some target
/// resolves to no repository.
pub fn plan_replications(
    targets: &Vec<ImageCoordinate>,
    default_repo: &Option<String>,
    src_repo: &String,
    src_name: &String,
    digest: &String,
    content_type: &String,
    manifest_bytes: &Vec<u8>,
) -> (r: Result<Vec<ManifestPut>, PublishError>)
    ensures
        r is Ok <==> (forall|i: int|
            0 <= i < targets@.len() ==> !((#[trigger] targets.deep_view()[i]).repo is None
                && default_repo.deep_view() is None)),
        r matches Ok(puts) ==> puts.deep_view() == spec_replication_puts(
            targets.deep_view(),
            default_repo.deep_view(),
            src_repo@,
            src_name@,
            digest@,
            content_type@,
            manifest_bytes@,
        ),
        r matches Err(e) ==> (e matches PublishError::Configuration { message }
            && message@ == "target repo not set"@),
{
    let mut puts: Vec<ManifestPut> = Vec::new();
    let n = targets.len();
    for i in 0..n
        invariant
            n == targets@.len(),
            forall|j: int|
                0 <= j < i ==> !((#[trigger] targets.deep_view()[j]).repo is None
                    && default_repo.deep_view() is None),
            puts.deep_view() == spec_replication_puts(
                targets.deep_view().take(i as int),
                default_repo.deep_view(),
                src_repo@,
                src_name@,
                digest@,
                content_type@,
                manifest_bytes@,
            ),
    {
        let target = &targets[i];
        let repo = match resolve_target_repo(target, default_repo) {
            Ok(repo) => repo,
            Err(e) => {
                assert((targets.deep_view()[i as int]).repo is None
                    && default_repo.deep_view() is None);
                return Err(e);
            },
        };
        if !repo.eq(src_repo) || !target.name.eq(src_name) {
            let put = ManifestPut {
                repo,
                name: target.name.clone(),
                reference: digest.clone(),
                content_type: content_type.clone(),
                body: manifest_bytes.clone(),
            };
            assert(put@ == (PutView {
                repo: put.repo@,
                name: target@.name,
                reference: digest@,
                content_type: content_type@,
                body: manifest_bytes@,
            }));
            puts.push(put);
        }
        assert(targets.deep_view().take(i + 1).drop_last() == targets.deep_view().take(i as int));
        assert(targets.deep_view().take(i + 1).last() == targets.deep_view()[i as int]);
        assert(puts.deep_view() =~= spec_replication_puts(
            targets.deep_view().take(i + 1),
            default_repo.deep_view(),
            src_repo@,
            src_name@,
            digest@,
            content_type@,
            manifest_bytes@,
        ));
    }
    assert(targets.deep_view().take(n as int) == targets.deep_view());
    Ok(puts)
}

/// The publication PUTs for a document: one tag-addressed PUT per target, in
/// target order, each carrying the same document and content type.
pub open spec fn spec_tag_puts(
    targets: Seq<CoordView>,
    default_repo: Option<Seq<char>>,
    content_type: Seq<char>,
    body: Seq<u8>,
) -> Seq<PutView>
    decreases targets.len(),
{
    if targets.len() == 0 {
        seq![]
    } else {
        let rest = spec_tag_puts(targets.drop_last(), default_repo, content_type, body);
        let t = targets.last();
        match spec_resolve_repo(t.repo, default_repo) {
            Some(repo) => rest + seq![
                PutView { repo, name: t.name, reference: t.tag, content_type, body },
            ],
            None => rest,
        }
    }
}

/// Plans the publication of a document under every target's tag: the
/// assembled index in the index path, the verbatim source manifest bytes
/// with their original content type in the retag path. Fails with a
/// configuration error exactly when some target resolves to no repository.
pub fn plan_tag_publishes(
    targets: &Vec<ImageCoordinate>,
    default_repo: &Option<String>,
    content_type: &String,
    body: &Vec<u8>,
) -> (r: Result<Vec<ManifestPut>, PublishError>)
    ensures
        r is Ok <==> (forall|i: int|
            0 <= i < targets@.len() ==> !((#[trigger] targets.deep_view()[i]).repo is None
                && default_repo.deep_view() is None)),
        r matches Ok(puts) ==> puts.deep_view() == spec_tag_puts(
            targets.deep_view(),
            default_repo.deep_view(),
            content_type@,
            body@,
        ),
        r matches Err(e) ==> (e matches PublishError::Configuration { message }
            && message@ == "target repo not set"@),
{
    let mut puts: Vec<ManifestPut> = Vec::new();
    let n = targets.len();
    for i in 0..n
        invariant
            n == targets@.len(),
            forall|j: int|
                0 <= j < i ==> !((#[trigger] targets.deep_view()[j]).repo is None
                    && default_repo.deep_view() is None),
            puts.deep_view() == spec_tag_puts(
                targets.deep_view().take(i as int),
                default_repo.deep_view(),
                content_type@,
                body@,
            ),
    {
        let target = &targets[i];
        let repo = match resolve_target_repo(target, default_repo) {
            Ok(repo) => repo,
            Err(e) => {
                assert((targets.deep_view()[i as int]).repo is None
                    && default_repo.deep_view() is None);
                return Err(e);
            },
        };
        let put = ManifestPut {
            repo,
            name: target.name.clone(),
            reference: target.tag.clone(),
            content_type: content_type.clone(),
            body: body.clone(),
        };
        puts.push(put);
        assert(targets.deep_view().take(i + 1).drop_last() == targets.deep_view().take(i as int));
        assert(targets.deep_view().take(i + 1).last() == targets.deep_view()[i as int]);
        assert(puts.deep_view() =~= spec_tag_puts(
            targets.deep_view().take(i + 1),
            default_repo.deep_view(),
            content_type@,
            body@,
        ));
    }
    assert(targets.deep_view().take(n as int) == targets.deep_view());
    Ok(puts)
}

/// Every replication PUT of a plan carries the manifest bytes unchanged and
/// is addressed by the manifest's own digest, not a tag.
pub proof fn lemma_replication_puts_carry_manifest(
    targets: Seq<CoordView>,
    default_repo: Option<Seq<char>>,
    src_repo: Seq<char>,
    src_name: Seq<char>,
    digest: Seq<char>,
    content_type: Seq<char>,
    body: Seq<u8>,
)
    ensures
        forall|i: int|
            0 <= i < spec_replication_puts(
                targets,
                default_repo,
                src_repo,
                src_name,
                digest,
                content_type,
                body,
            ).len() ==> {
                let p = #[trigger] spec_replication_puts(
                    targets,
                    default_repo,
                    src_repo,
                    src_name,
                    digest,
                    content_type,
                    body,
                )[i];
                p.body == body && p.content_type == content_type && p.reference == digest
            },
    decreases targets.len(),
{
    if targets.len() > 0 {
        lemma_replication_puts_carry_manifest(
            targets.drop_last(),
            default_repo,
            src_repo,
            src_name,
            digest,
            content_type,
            body,
        );
        let puts = spec_replication_puts(
            targets,
            default_repo,
            src_repo,
            src_name,
            digest,
            content_type,
            body,
        );
        let rest = spec_replication_puts(
            targets.drop_last(),
            default_repo,
            src_repo,
            src_name,
            digest,
            content_type,
            body,
        );
        assert forall|i: int| 0 <= i < puts.len() implies {
            let p = #[trigger] puts[i];
            p.body == body && p.content_type == content_type && p.reference == digest
        } by {
            if i < rest.len() {
                assert(puts[i] == rest[i]);
            }
        }
    }
}

/// Every target whose repository or name differs from the source's is
/// covered by some replication PUT, addressed by that repository, the
/// target's name and the manifest's digest.
pub proof fn lemma_replication_covers_differing_targets(
    targets: Seq<CoordView>,
    default_repo: Option<Seq<char>>,
    src_repo: Seq<char>,
    src_name: Seq<char>,
    digest: Seq<char>,
    content_type: Seq<char>,
    body: Seq<u8>,
    j: int,
)
    requires
        0 <= j < targets.len(),
        spec_resolve_repo(targets[j].repo, default_repo) matches Some(repo) && (repo != src_repo
            || targets[j].name != src_name),
    ensures
        exists|i: int|
            0 <= i < spec_replication_puts(
                targets,
                default_repo,
                src_repo,
                src_name,
                digest,
                content_type,
                body,
            ).len() && crate::registry::spec_put_key(
                #[trigger] spec_replication_puts(
                    targets,
                    default_repo,
                    src_repo,
                    src_name,
                    digest,
                    content_type,
                    body,
                )[i],
            ) == (
                spec_resolve_repo(targets[j].repo, default_repo)->Some_0,
                targets[j].name,
                digest,
            ),
    decreases targets.len(),
{
    let puts = spec_replication_puts(
        targets,
        default_repo,
        src_repo,
        src_name,
        digest,
        content_type,
        body,
    );
    let rest = spec_replication_puts(
        targets.drop_last(),
        default_repo,
        src_repo,
        src_name,
        digest,
        content_type,
        body,
    );
    if j == targets.len() - 1 {
        assert(crate::registry::spec_put_key(puts[puts.len() - 1]) == (
            spec_resolve_repo(targets[j].repo, default_repo)->Some_0,
            targets[j].name,
            digest,
        ));
    } else {
        assert(targets.drop_last()[j] == targets[j]);
        lemma_replication_covers_differing_targets(
            targets.drop_last(),
            default_repo,
            src_repo,
            src_name,
            digest,
            content_type,
            body,
            j,
        );
        let i = choose|i: int|
            0 <= i < rest.len() && crate::registry::spec_put_key(#[trigger] rest[i]) == (
                spec_resolve_repo(targets[j].repo, default_repo)->Some_0,
                targets[j].name,
                digest,
            );
        assert(puts[i] == rest[i]);
    }
}

/// Replication makes the index safe to serve: after a source's replication
/// plan is applied to registry storage, every target whose repository or
/// name differs from the source's holds the manifest bytes verbatim under
/// the manifest's own digest, so an index published there never references
/// a digest that is not present.
pub proof fn lemma_replication_stores_manifest(
    store: crate::registry::StoreModel,
    targets: Seq<CoordView>,
    default_repo: Option<Seq<char>>,
    src_repo: Seq<char>,
    src_name: Seq<char>,
    digest: Seq<char>,
    content_type: Seq<char>,
    body: Seq<u8>,
    j: int,
)
    requires
        0 <= j < targets.len(),
        spec_resolve_repo(targets[j].repo, default_repo) matches Some(repo) && (repo != src_repo
            || targets[j].name != src_name),
    ensures
        ({
            let after = crate::registry::spec_apply_puts(
                store,
                spec_replication_puts(
                    targets,
                    default_repo,
                    src_repo,
                    src_name,
                    digest,
                    content_type,
                    body,
                ),
            );
            let key = (
                spec_resolve_repo(targets[j].repo, default_repo)->Some_0,
                targets[j].name,
                digest,
            );
            after.contains_key(key) && after[key] == (body, content_type)
        }),
{
    lemma_replication_puts_carry_manifest(
        targets,
        default_repo,
        src_repo,
        src_name,
        digest,
        content_type,
        body,
    );
    lemma_replication_covers_differing_targets(
        targets,
        default_repo,
        src_repo,
        src_name,
        digest,
        content_type,
        body,
        j,
    );
    crate::registry::lemma_puts_store_document(
        store,
        spec_replication_puts(targets, default_repo, src_repo, src_name, digest, content_type, body),
        body,
        content_type,
        (spec_resolve_repo(targets[j].repo, default_repo)->Some_0, targets[j].name, digest),
    );
}

/// Every publication PUT of a plan carries the planned document unchanged.
pub proof fn lemma_tag_puts_carry_document(
    targets: Seq<CoordView>,
    default_repo: Option<Seq<char>>,
    content_type: Seq<char>,
    body: Seq<u8>,
)
    ensures
        forall|i: int|
            0 <= i < spec_tag_puts(targets, default_repo, content_type, body).len()
                ==> (#[trigger] spec_tag_puts(targets, default_repo, content_type, body)[i]).body
                == body && spec_tag_puts(targets, default_repo, content_type, body)[i].content_type
                == content_type,
    decreases targets.len(),
{
    if targets.len() > 0 {
        lemma_tag_puts_carry_document(targets.drop_last(), default_repo, content_type, body);
        let puts = spec_tag_puts(targets, default_repo, content_type, body);
        let rest = spec_tag_puts(targets.drop_last(), default_repo, content_type, body);
        assert forall|i: int| 0 <= i < puts.len() implies (#[trigger] puts[i]).body == body
            && puts[i].content_type == content_type by {
            if i < rest.len() {
                assert(puts[i] == rest[i]);
            }
        }
    }
}

/// Every target that resolves to a repository is covered by some PUT of the
/// publication plan, addressed by that repository, the target's name and the
/// target's tag.
pub proof fn lemma_tag_puts_cover_targets(
    targets: Seq<CoordView>,
    default_repo: Option<Seq<char>>,
    content_type: Seq<char>,
    body: Seq<u8>,
    j: int,
)
    requires
        0 <= j < targets.len(),
        spec_resolve_repo(targets[j].repo, default_repo) is Some,
    ensures
        exists|i: int|
            0 <= i < spec_tag_puts(targets, default_repo, content_type, body).len()
                && crate::registry::spec_put_key(
                #[trigger] spec_tag_puts(targets, default_repo, content_type, body)[i],
            ) == (
                spec_resolve_repo(targets[j].repo, default_repo)->Some_0,
                targets[j].name,
                targets[j].tag,
            ),
    decreases targets.len(),
{
    let puts = spec_tag_puts(targets, default_repo, content_type, body);
    let rest = spec_tag_puts(targets.drop_last(), default_repo, content_type, body);
    if j == targets.len() - 1 {
        assert(crate::registry::spec_put_key(puts[puts.len() - 1]) == (
            spec_resolve_repo(targets[j].repo, default_repo)->Some_0,
            targets[j].name,
            targets[j].tag,
        ));
    } else {
        assert(targets.drop_last()[j] == targets[j]);
        lemma_tag_puts_cover_targets(targets.drop_last(), default_repo, content_type, body, j);
        let i = choose|i: int|
            0 <= i < rest.len() && crate::registry::spec_put_key(#[trigger] rest[i]) == (
                spec_resolve_repo(targets[j].repo, default_repo)->Some_0,
                targets[j].name,
                targets[j].tag,
            );
        assert(puts[i] == rest[i]);
    }
}

/// Retagging round-trips: after the retag plan for a document with bytes
/// `body` and content type `content_type` is applied to registry storage,
/// every target coordinate of the plan holds exactly those bytes and that
/// content type, so fetching it back yields them unchanged.
pub proof fn lemma_retag_round_trip(
    store: crate::registry::StoreModel,
    targets: Seq<CoordView>,
    default_repo: Option<Seq<char>>,
    content_type: Seq<char>,
    body: Seq<u8>,
    j: int,
)
    requires
        0 <= j < targets.len(),
        spec_resolve_repo(targets[j].repo, default_repo) is Some,
    ensures
        ({
            let after = crate::registry::spec_apply_puts(
                store,
                spec_tag_puts(targets, default_repo, content_type, body),
            );
            let key = (
                spec_resolve_repo(targets[j].repo, default_repo)->Some_0,
                targets[j].name,
                targets[j].tag,
            );
            after.contains_key(key) && after[key] == (body, content_type)
        }),
{
    lemma_tag_puts_carry_document(targets, default_repo, content_type, body);
    lemma_tag_puts_cover_targets(targets, default_repo, content_type, body, j);
    crate::registry::lemma_puts_store_document(
        store,
        spec_tag_puts(targets, default_repo, content_type, body),
        body,
        content_type,
        (
            spec_resolve_repo(targets[j].repo, default_repo)->Some_0,
            targets[j].name,
            targets[j].tag,
        ),
    );
}

/// Joins the per-source results of one item. Index assembly needs every
/// source's entry: the item keeps all entries, in source order, exactly when
/// every source succeeded, and otherwise fails with the first source error,
/// leaving no partial result.
pub fn collect_entries(results: &Vec<Result<crate::index::IndexEntry, PublishError>>) -> (r:
    Result<Vec<crate::index::IndexEntry>, PublishError>)
    ensures
        r is Ok <==> (forall|i: int| 0 <= i < results@.len() ==> (#[trigger] results@[i]) is Ok),
        r matches Ok(entries) ==> entries@.len() == results@.len() && (forall|i: int|
            0 <= i < results@.len() ==> (#[trigger] entries@[i]) == results@[i]->Ok_0),
        r matches Err(e) ==> (exists|i: int|
            0 <= i < results@.len() && ((#[trigger] results@[i]) matches Err(first) && e == first
                && (forall|j: int| 0 <= j < i ==> results@[j] is Ok))),
{
    let mut entries: Vec<crate::index::IndexEntry> = Vec::new();
    let n = results.len();
    for k in 0..n
        invariant
            n == results@.len(),
            entries@.len() == k,
            forall|j: int| 0 <= j < k ==> (#[trigger] results@[j]) is Ok,
            forall|j: int| 0 <= j < k ==> (#[trigger] entries@[j]) == results@[j]->Ok_0,
    {
        match &results[k] {
            Ok(entry) => {
                entries.push(entry.clone());
            },
            Err(e) => {
                return Err(e.clone());
            },
        }
    }
    Ok(entries)
}

/// Whether every unit of a run succeeded. The process exits non-zero
/// exactly when this is false.
pub fn all_succeeded(outcomes: &Vec<bool>) -> (r: bool)
    ensures
        r <==> (forall|i: int| 0 <= i < outcomes@.len() ==> outcomes@[i]),
{
    let n = outcomes.len();
    for i in 0..n
        invariant
            n == outcomes@.len(),
            forall|j: int| 0 <= j < i ==> outcomes@[j],
    {
        if !outcomes[i] {
            return false;
        }
    }
    true
}

} // verus!
