//! The multi-platform manifest index: assembly from per-source entries, and
//! the emission of the index document as compact JSON, one entry per source
//! in source order.

use vstd::prelude::*;

use crate::digest::HEX_DIGITS;
use crate::manifest::{Platform, PlatformView};
use crate::text::{push_char, spec_dec, u64_to_dec};

verus! {

/// The media type of a single-platform image manifest.
pub fn manifest_media_type() -> (r: &'static str)
    ensures
        r@ == "application/vnd.oci.image.manifest.v1+json"@,
{
    "application/vnd.oci.image.manifest.v1+json"
}

/// The media type of a multi-platform manifest index.
pub fn index_media_type() -> (r: &'static str)
    ensures
        r@ == "application/vnd.oci.image.index.v1+json"@,
{
    "application/vnd.oci.image.index.v1+json"
}

/// One manifest reference within an index: its media type, its digest, its
/// size in bytes, and the platform it serves.
#[derive(Debug, PartialEq, Eq)]
pub struct IndexEntry {
    pub media_type: String,
    pub digest: String,
    pub size: u64,
    pub platform: Platform,
}

impl Clone for IndexEntry {
    fn clone(&self) -> (r: Self)
        ensures
            r == *self,
    {
        IndexEntry {
            media_type: self.media_type.clone(),
            digest: self.digest.clone(),
            size: self.size,
            platform: self.platform.clone(),
        }
    }
}

/// The mathematical value of an [`IndexEntry`].
pub struct EntryView {
    pub media_type: Seq<char>,
    pub digest: Seq<char>,
    pub size: u64,
    pub platform: PlatformView,
}

impl View for IndexEntry {
    type V = EntryView;

    open spec fn view(&self) -> EntryView {
        EntryView {
            media_type: self.media_type@,
            digest: self.digest@,
            size: self.size,
            platform: self.platform@,
        }
    }
}

impl DeepView for IndexEntry {
    type V = EntryView;

    open spec fn deep_view(&self) -> EntryView {
        self.view()
    }
}

/// Builds the index entry for one source: the fixed manifest media type, the
/// digest recomputed from the manifest bytes, the manifest's size, and the
/// platform resolved from its config blob.
pub fn make_index_entry(digest: String, size: u64, platform: Platform) -> (r: IndexEntry)
    ensures
        r@.media_type == "application/vnd.oci.image.manifest.v1+json"@,
        r@.digest == digest@,
        r@.size == size,
        r@.platform == platform@,
{
    IndexEntry { media_type: manifest_media_type().to_owned(), digest, size, platform }
}

/// A multi-platform manifest index document, before serialization.
#[derive(Debug, Clone)]
pub struct ManifestIndex {
    pub schema_version: u8,
    pub media_type: String,
    pub manifests: Vec<IndexEntry>,
}

/// The mathematical value of a [`ManifestIndex`].
pub struct IndexView {
    pub schema_version: u8,
    pub media_type: Seq<char>,
    pub manifests: Seq<EntryView>,
}

impl View for ManifestIndex {
    type V = IndexView;

    open spec fn view(&self) -> IndexView {
        IndexView {
            schema_version: self.schema_version,
            media_type: self.media_type@,
            manifests: self.manifests.deep_view(),
        }
    }
}

/// Assembles the index document from the per-source entries: schema version
/// 2, the fixed index media type, and exactly the given entries, one per
/// source, in source order.
pub fn assemble(entries: Vec<IndexEntry>) -> (r: ManifestIndex)
    ensures
        r@.schema_version == 2,
        r@.media_type == "application/vnd.oci.image.index.v1+json"@,
        r@.manifests == entries.deep_view(),
{
    ManifestIndex { schema_version: 2, media_type: index_media_type().to_owned(), manifests: entries }
}

/// How one character is written inside a JSON string: quotes, backslashes
/// and control characters are escaped, everything else stands as itself.
pub open spec fn spec_escape_char(c: char) -> Seq<char> {
    if c == '"' {
        seq!['\\', '"']
    } else if c == '\\' {
        seq!['\\', '\\']
    } else if c == '\u{8}' {
        seq!['\\', 'b']
    } else if c == '\t' {
        seq!['\\', 't']
    } else if c == '\n' {
        seq!['\\', 'n']
    } else if c == '\u{c}' {
        seq!['\\', 'f']
    } else if c == '\r' {
        seq!['\\', 'r']
    } else if (c as u32) < 0x20 {
        seq!['\\', 'u', '0', '0', HEX_DIGITS@[((c as u32) >> 4) as int], HEX_DIGITS@[((
        c as u32) & 0xf) as int]]
    } else {
        seq![c]
    }
}

/// The body of a JSON string: each character escaped as JSON asks.
pub open spec fn spec_escape(s: Seq<char>) -> Seq<char>
    decreases s.len(),
{
    if s.len() == 0 {
        seq![]
    } else {
        spec_escape(s.drop_last()) + spec_escape_char(s.last())
    }
}

/// A JSON string literal holding `s`.
pub open spec fn spec_json_string(s: Seq<char>) -> Seq<char> {
    seq!['"'] + spec_escape(s) + seq!['"']
}

/// Writes the body of a JSON string: `s` with every character escaped.
pub fn escape_json(s: &str) -> (r: String)
    ensures
        r@ == spec_escape(s@),
{
    let mut r = String::new();
    let len = s.unicode_len();
    for i in 0..len
        invariant
            len == s@.len(),
            r@ == spec_escape(s@.take(i as int)),
    {
        let c = s.get_char(i);
        let cu = c as u32;
        if c == '"' {
            push_char(&mut r, '\\');
            push_char(&mut r, '"');
        } else if c == '\\' {
            push_char(&mut r, '\\');
            push_char(&mut r, '\\');
        } else if c == '\u{8}' {
            push_char(&mut r, '\\');
            push_char(&mut r, 'b');
        } else if c == '\t' {
            push_char(&mut r, '\\');
            push_char(&mut r, 't');
        } else if c == '\n' {
            push_char(&mut r, '\\');
            push_char(&mut r, 'n');
        } else if c == '\u{c}' {
            push_char(&mut r, '\\');
            push_char(&mut r, 'f');
        } else if c == '\r' {
            push_char(&mut r, '\\');
            push_char(&mut r, 'r');
        } else if cu < 0x20 {
            assert((cu >> 4) < 16 && (cu & 0xf) < 16) by (bit_vector)
                requires
                    cu < 0x20,
            ;
            push_char(&mut r, '\\');
            push_char(&mut r, 'u');
            push_char(&mut r, '0');
            push_char(&mut r, '0');
            push_char(&mut r, HEX_DIGITS[(cu >> 4) as usize]);
            push_char(&mut r, HEX_DIGITS[(cu & 0xf) as usize]);
        } else {
            push_char(&mut r, c);
        }
        assert(s@.take(i + 1).drop_last() == s@.take(i as int));
        assert(s@.take(i + 1).last() == s@[i as int]);
        assert(r@ =~= spec_escape(s@.take(i + 1)));
    }
    assert(s@.take(len as int) == s@);
    r
}

/// Writes a JSON string literal holding `s`.
pub fn json_string(s: &str) -> (r: String)
    ensures
        r@ == spec_json_string(s@),
{
    let mut r = String::new();
    push_char(&mut r, '"');
    let body = escape_json(s);
    r.append(body.as_str());
    push_char(&mut r, '"');
    assert(r@ =~= spec_json_string(s@));
    r
}

/// The JSON document for a platform: architecture and os, and the variant
/// only when there is one.
pub open spec fn spec_platform_json(p: PlatformView) -> Seq<char> {
    "{\"architecture\":"@ + spec_json_string(p.architecture) + ",\"os\":"@ + spec_json_string(
        p.os,
    ) + (match p.variant {
        Some(v) => ",\"variant\":"@ + spec_json_string(v),
        None => seq![],
    }) + "}"@
}

/// Writes the JSON document for a platform.
pub fn platform_json(p: &Platform) -> (r: String)
    ensures
        r@ == spec_platform_json(p@),
{
    let mut r: String = "{\"architecture\":".to_owned();
    let arch = json_string(p.architecture.as_str());
    r.append(arch.as_str());
    r.append(",\"os\":");
    let os = json_string(p.os.as_str());
    r.append(os.as_str());
    match &p.variant {
        Some(v) => {
            r.append(",\"variant\":");
            let var = json_string(v.as_str());
            r.append(var.as_str());
        },
        None => {},
    }
    r.append("}");
    assert(r@ =~= spec_platform_json(p@));
    r
}

/// The JSON document for one index entry.
pub open spec fn spec_entry_json(e: EntryView) -> Seq<char> {
    "{\"mediaType\":"@ + spec_json_string(e.media_type) + ",\"digest\":"@ + spec_json_string(
        e.digest,
    ) + ",\"size\":"@ + spec_dec(e.size as nat) + ",\"platform\":"@ + spec_platform_json(
        e.platform,
    ) + "}"@
}

/// Writes the JSON document for one index entry.
pub fn entry_json(e: &IndexEntry) -> (r: String)
    ensures
        r@ == spec_entry_json(e@),
{
    let mut r: String = "{\"mediaType\":".to_owned();
    let mt = json_string(e.media_type.as_str());
    r.append(mt.as_str());
    r.append(",\"digest\":");
    let dg = json_string(e.digest.as_str());
    r.append(dg.as_str());
    r.append(",\"size\":");
    let sz = u64_to_dec(e.size);
    r.append(sz.as_str());
    r.append(",\"platform\":");
    let pl = platform_json(&e.platform);
    r.append(pl.as_str());
    r.append("}");
    assert(r@ =~= spec_entry_json(e@));
    r
}

/// The JSON array holding the entries, comma separated, in order.
pub open spec fn spec_entries_json(entries: Seq<EntryView>) -> Seq<char>
    decreases entries.len(),
{
    if entries.len() == 0 {
        seq![]
    } else if entries.len() == 1 {
        spec_entry_json(entries.last())
    } else {
        spec_entries_json(entries.drop_last()) + ","@ + spec_entry_json(entries.last())
    }
}

/// The serialized index document: compact JSON, fields in wire order, one
/// entry per source in source order.
pub open spec fn spec_index_json(ix: IndexView) -> Seq<char> {
    "{\"schemaVersion\":"@ + spec_dec(ix.schema_version as nat) + ",\"mediaType\":"@
        + spec_json_string(ix.media_type) + ",\"manifests\":["@ + spec_entries_json(ix.manifests)
        + "]}"@
}

/// Serializes the index document as compact JSON.
pub fn index_to_json(ix: &ManifestIndex) -> (r: String)
    ensures
        r@ == spec_index_json(ix@),
{
    let mut r: String = "{\"schemaVersion\":".to_owned();
    let sv = u64_to_dec(ix.schema_version as u64);
    r.append(sv.as_str());
    r.append(",\"mediaType\":");
    let mt = json_string(ix.media_type.as_str());
    r.append(mt.as_str());
    r.append(",\"manifests\":[");
    let n = ix.manifests.len();
    for i in 0..n
        invariant
            n == ix.manifests@.len(),
            r@ == "{\"schemaVersion\":"@ + spec_dec(ix@.schema_version as nat) + ",\"mediaType\":"@
                + spec_json_string(ix@.media_type) + ",\"manifests\":["@ + spec_entries_json(
                ix@.manifests.take(i as int),
            ),
    {
        if i > 0 {
            r.append(",");
        }
        let ej = entry_json(&ix.manifests[i]);
        r.append(ej.as_str());
        assert(ix@.manifests.take(i + 1).drop_last() == ix@.manifests.take(i as int));
        assert(ix@.manifests.take(i + 1).last() == ix.manifests@[i as int].deep_view());
        assert(r@ =~= "{\"schemaVersion\":"@ + spec_dec(ix@.schema_version as nat)
            + ",\"mediaType\":"@ + spec_json_string(ix@.media_type) + ",\"manifests\":["@
            + spec_entries_json(ix@.manifests.take(i + 1)));
    }
    r.append("]}");
    assert(ix@.manifests.take(n as int) == ix@.manifests);
    assert(r@ =~= spec_index_json(ix@));
    r
}

} // verus!
