//! Registry artifacts: references, manifests, layers, and the client that
//! names what to fetch.
use crate::error::DownloadError;
use crate::foreign::header_entries;
use crate::headers::{oci_entries, oci_request_headers};
use crate::resume::{meta_suffix, part_suffix, ResumeSupport};
use crate::text::{
    chars_of, same_text, split_once, split_once_chars, string_of, trim_end, trim_end_chars,
    CharClass,
};
use crate::transfer::{Plan, Transfer, TransferKind};
use crate::utils::{opt_text, strip_prefix_all, strip_prefix_all_chars, FileMode};
use reqwest::header::HeaderMap;
use vstd::prelude::*;
use vstd::string::StringExecFns;

verus! {

/// One blob of an artifact.
#[derive(Clone, Debug)]
pub struct OciLayer {
    pub media_type: String,
    pub digest: String,
    pub size: u64,
    /// The annotations, each key with its value. Of two entries with one
    /// key the first counts.
    pub annotations: Vec<(String, String)>,
}

/// The configuration blob of an artifact.
#[derive(Clone, Debug)]
pub struct OciConfig {
    pub media_type: String,
    pub digest: String,
    pub size: u64,
}

/// The document that lists the layers of an artifact.
#[derive(Clone, Debug)]
pub struct OciManifest {
    pub media_type: String,
    pub config: OciConfig,
    pub layers: Vec<OciLayer>,
}

/// How far the download of an artifact has come.
#[derive(Clone, Debug)]
pub struct OciDownloadProgress {
    pub url: String,
    pub downloaded_layers: Vec<String>,
    pub total_layers: Vec<String>,
    pub total_bytes: u64,
    pub downloaded_bytes: u64,
}

/// What names an artifact in a registry.
#[derive(Clone, Debug)]
pub struct Reference {
    pub package: String,
    /// A tag, or a digest that begins with `sha256:`.
    pub tag: String,
}

/// What the sidecar of a layer's part file records.
#[derive(Clone, Debug)]
pub struct LayerMeta {
    pub etag: Option<String>,
    pub last_modified: Option<String>,
}

/// The client for one artifact of one registry.
#[derive(Clone, Debug)]
pub struct OciClient {
    pub reference: Reference,
    pub api: Option<String>,
    pub file_mode: FileMode,
}

/// The annotation key under which a layer carries its file name.
pub open spec fn title_key() -> Seq<char> {
    "org.opencontainers.image.title"@
}

/// The texts of a list of annotations.
pub open spec fn pairs(entries: Seq<(String, String)>) -> Seq<(Seq<char>, Seq<char>)> {
    Seq::new(entries.len(), |i: int| (entries[i].0@, entries[i].1@))
}

/// The value of the first entry with the key `key`.
pub open spec fn annotation(entries: Seq<(Seq<char>, Seq<char>)>, key: Seq<char>) -> Option<
    Seq<char>,
>
    decreases entries.len(),
{
    if entries.len() == 0 {
        None
    } else if entries[0].0 == key {
        Some(entries[0].1)
    } else {
        annotation(entries.drop_first(), key)
    }
}

/// No key occurs twice in `entries`.
pub open spec fn distinct_keys(entries: Seq<(Seq<char>, Seq<char>)>) -> bool {
    forall|i: int, j: int|
        0 <= i < entries.len() && 0 <= j < entries.len() && i != j ==> (#[trigger] entries[i]).0
            != (#[trigger] entries[j]).0
}

/// `entries` with `key` set to `value`: the first entry with that key takes
/// the value; where there is none, a new entry is added at the end.
pub open spec fn with_entry(
    entries: Seq<(Seq<char>, Seq<char>)>,
    key: Seq<char>,
    value: Seq<char>,
) -> Seq<(Seq<char>, Seq<char>)>
    decreases entries.len(),
{
    if entries.len() == 0 {
        seq![(key, value)]
    } else if entries[0].0 == key {
        seq![(key, value)] + entries.drop_first()
    } else {
        seq![entries[0]] + with_entry(entries.drop_first(), key, value)
    }
}

/// An entry that was set is found again, and the other keys keep their
/// values.
pub proof fn lemma_with_entry(
    entries: Seq<(Seq<char>, Seq<char>)>,
    key: Seq<char>,
    value: Seq<char>,
    other: Seq<char>,
)
    ensures
        annotation(with_entry(entries, key, value), key) == Some(value),
        other != key ==> annotation(with_entry(entries, key, value), other) == annotation(
            entries,
            other,
        ),
    decreases entries.len(),
{
    let set = with_entry(entries, key, value);
    if entries.len() > 0 {
        let rest = entries.drop_first();
        if entries[0].0 == key {
            assert(set == seq![(key, value)] + rest);
            assert(set[0] == (key, value));
            assert(set.drop_first() == rest);
            assert(annotation(set, key) == Some(value));
            if other != key {
                assert(annotation(set, other) == annotation(rest, other));
                assert(annotation(entries, other) == annotation(rest, other));
            }
        } else {
            lemma_with_entry(rest, key, value, other);
            let inner = with_entry(rest, key, value);
            assert(set == seq![entries[0]] + inner);
            assert(set[0] == entries[0]);
            assert(set.drop_first() == inner);
            assert(annotation(set, key) == annotation(inner, key));
            if other != key {
                if entries[0].0 == other {
                    assert(annotation(set, other) == Some(entries[0].1));
                } else {
                    assert(annotation(set, other) == annotation(inner, other));
                }
            }
        }
    } else {
        assert(set == seq![(key, value)]);
        assert(set[0] == (key, value));
        assert(set.drop_first() =~= Seq::empty());
        if other != key {
            assert(annotation(set, other) == annotation(set.drop_first(), other));
        }
    }
}

/// What `with_entry` gives when the first entry with the key is known.
pub proof fn lemma_with_entry_at(
    entries: Seq<(Seq<char>, Seq<char>)>,
    key: Seq<char>,
    value: Seq<char>,
    i: int,
)
    requires
        0 <= i <= entries.len(),
        forall|j: int| 0 <= j < i ==> (#[trigger] entries[j]).0 != key,
        i < entries.len() ==> entries[i].0 == key,
    ensures
        i < entries.len() ==> with_entry(entries, key, value) == entries.update(i, (key, value)),
        i == entries.len() ==> with_entry(entries, key, value) == entries.push((key, value)),
    decreases entries.len(),
{
    if entries.len() > 0 {
        let rest = entries.drop_first();
        if i == 0 {
            assert(seq![(key, value)] + rest == entries.update(0, (key, value)));
        } else {
            assert forall|j: int| 0 <= j < i - 1 implies (#[trigger] rest[j]).0 != key by {
                assert(rest[j] == entries[j + 1]);
            }
            lemma_with_entry_at(rest, key, value, i - 1);
            if i < entries.len() {
                assert(seq![entries[0]] + rest.update(i - 1, (key, value)) == entries.update(
                    i,
                    (key, value),
                ));
            } else {
                assert(seq![entries[0]] + rest.push((key, value)) == entries.push((key, value)));
            }
        }
    }
}

/// The package and the tag that a reference text names: a leading
/// `ghcr.io/` is dropped; what follows an `@` is a digest, else what follows
/// a `:` is a tag, else the tag is `latest`.
pub open spec fn reference_of(value: Seq<char>) -> (Seq<char>, Seq<char>) {
    let paths = strip_prefix_all(value, "ghcr.io/"@);
    match split_once(paths, '@') {
        Some(halves) => halves,
        None => match split_once(paths, ':') {
            Some(halves) => halves,
            None => (paths, "latest"@),
        },
    }
}

/// The base URL of a registry's API, without a slash at its end.
pub open spec fn api_base(api: Option<Seq<char>>) -> Seq<char> {
    trim_end(
        match api {
            Some(base) => base,
            None => "https://ghcr.io/v2"@,
        },
        CharClass::Just('/'),
    )
}

/// The URL of the manifest of `package` at `tag`.
pub open spec fn manifest_url_of(api: Option<Seq<char>>, package: Seq<char>, tag: Seq<char>) -> Seq<
    char,
> {
    api_base(api) + "/"@ + package + "/manifests/"@ + tag
}

/// The URL of the blob `digest` of `package`.
pub open spec fn blob_url_of(api: Option<Seq<char>>, package: Seq<char>, digest: Seq<char>) -> Seq<
    char,
> {
    api_base(api) + "/"@ + package + "/blobs/"@ + digest
}

impl Reference {
    /// Reads a reference.
    pub fn from_str(value: &str) -> (r: Reference)
        ensures
            (r.package@, r.tag@) == reference_of(value@),
    {
        let text = chars_of(value);
        let host = chars_of("ghcr.io/");
        let paths = strip_prefix_all_chars(&text, &host);
        match split_once_chars(&paths, '@') {
            Some((package, digest)) => Reference {
                package: string_of(&package),
                tag: string_of(&digest),
            },
            None => match split_once_chars(&paths, ':') {
                Some((package, tag)) => Reference {
                    package: string_of(&package),
                    tag: string_of(&tag),
                },
                None => Reference {
                    package: string_of(&paths),
                    tag: String::from_str("latest"),
                },
            },
        }
    }

    /// Whether the reference names one blob by its digest rather than a
    /// manifest.
    pub fn is_blob(&self) -> (r: bool)
        ensures
            r == crate::text::starts_with(self.tag@, "sha256:"@),
    {
        let tag = chars_of(self.tag.as_str());
        let prefix = chars_of("sha256:");
        crate::text::starts_with_chars(&tag, &prefix)
    }

    /// A copy of the reference.
    pub fn copy(&self) -> (r: Reference)
        ensures
            r.package@ == self.package@,
            r.tag@ == self.tag@,
    {
        Reference {
            package: String::from_str(self.package.as_str()),
            tag: String::from_str(self.tag.as_str()),
        }
    }
}

impl OciLayer {
    /// No annotation key occurs twice.
    pub open spec fn wf(&self) -> bool {
        distinct_keys(pairs(self.annotations@))
    }

    /// A copy of the layer.
    pub fn copy(&self) -> (r: OciLayer)
        ensures
            r.digest@ == self.digest@,
            r.media_type@ == self.media_type@,
            r.size == self.size,
            pairs(r.annotations@) == pairs(self.annotations@),
    {
        let mut annotations: Vec<(String, String)> = Vec::new();
        let mut i: usize = 0;
        while i < self.annotations.len()
            invariant
                i <= self.annotations.len(),
                pairs(annotations@) == pairs(self.annotations@).take(i as int),
            decreases self.annotations.len() - i,
        {
            let ghost before = pairs(annotations@);
            annotations.push(
                (
                    String::from_str(self.annotations[i].0.as_str()),
                    String::from_str(self.annotations[i].1.as_str()),
                ),
            );
            assert(pairs(annotations@) == before.push(pairs(self.annotations@)[i as int]));
            i += 1;
        }
        assert(pairs(self.annotations@).take(i as int) == pairs(self.annotations@));
        OciLayer {
            media_type: String::from_str(self.media_type.as_str()),
            digest: String::from_str(self.digest.as_str()),
            size: self.size,
            annotations,
        }
    }

    /// The file name that the layer carries, if it carries one.
    pub fn get_title(&self) -> (r: Option<String>)
        ensures
            opt_text(r) == annotation(pairs(self.annotations@), title_key()),
    {
        let ghost all = pairs(self.annotations@);
        let mut i: usize = 0;
        assert(all.skip(0) == all);
        while i < self.annotations.len()
            invariant
                i <= self.annotations.len(),
                all == pairs(self.annotations@),
                annotation(all, title_key()) == annotation(all.skip(i as int), title_key()),
            decreases self.annotations.len() - i,
        {
            proof {
                let rest = all.skip(i as int);
                assert(rest[0] == all[i as int]);
                assert(rest.drop_first() == all.skip(i + 1));
            }
            if same_text(self.annotations[i].0.as_str(), "org.opencontainers.image.title") {
                return Some(String::from_str(self.annotations[i].1.as_str()));
            }
            i += 1;
        }
        None
    }

    /// Gives the layer a file name.
    pub fn set_title(&mut self, title: &str)
        ensures
            pairs(final(self).annotations@) == with_entry(
                pairs(old(self).annotations@),
                title_key(),
                title@,
            ),
            final(self).media_type == old(self).media_type,
            final(self).digest == old(self).digest,
            final(self).size == old(self).size,
            old(self).wf() ==> final(self).wf(),
    {
        let ghost before = pairs(self.annotations@);
        let mut i: usize = 0;
        while i < self.annotations.len() && !same_text(
            self.annotations[i].0.as_str(),
            "org.opencontainers.image.title",
        )
            invariant
                i <= self.annotations.len(),
                *self == *old(self),
                before == pairs(self.annotations@),
                forall|j: int| 0 <= j < i ==> (#[trigger] before[j]).0 != title_key(),
            decreases self.annotations.len() - i,
        {
            i += 1;
        }
        proof {
            lemma_with_entry_at(before, title_key(), title@, i as int);
        }
        let entry = (
            String::from_str("org.opencontainers.image.title"),
            String::from_str(title),
        );
        if i < self.annotations.len() {
            self.annotations.set(i, entry);
            assert(pairs(self.annotations@) == before.update(i as int, (title_key(), title@)));
        } else {
            self.annotations.push(entry);
            assert(pairs(self.annotations@) == before.push((title_key(), title@)));
        }
        proof {
            let after = pairs(self.annotations@);
            if distinct_keys(before) {
                assert forall|a: int, b: int|
                    0 <= a < after.len() && 0 <= b < after.len() && a != b implies (
                #[trigger] after[a]).0 != (#[trigger] after[b]).0 by {
                    if a < before.len() {
                        assert(after[a].0 == before[a].0);
                    }
                    if b < before.len() {
                        assert(after[b].0 == before[b].0);
                    }
                }
            }
        }
    }
}

impl OciClient {
    /// A client for `reference` at the registry `api`, or at the default
    /// registry where `api` is `None`.
    pub fn new(reference: &Reference, api: Option<String>, file_mode: FileMode) -> (client:
        OciClient)
        ensures
            client.reference.package@ == reference.package@,
            client.reference.tag@ == reference.tag@,
            client.api == api,
            client.file_mode == file_mode,
    {
        OciClient { reference: reference.copy(), api, file_mode }
    }

    /// The headers of every request to the registry.
    pub fn headers(&self) -> (headers: HeaderMap)
        ensures
            header_entries(headers) == oci_entries(),
    {
        oci_request_headers()
    }

    /// The base URL of the registry's API.
    fn base(&self) -> (r: String)
        ensures
            r@ == api_base(opt_text(self.api)),
    {
        let raw = match &self.api {
            Some(base) => chars_of(base.as_str()),
            None => chars_of("https://ghcr.io/v2"),
        };
        string_of(&trim_end_chars(&raw, CharClass::Just('/')))
    }

    /// The URL of the artifact's manifest.
    pub fn manifest_url(&self) -> (r: String)
        ensures
            r@ == manifest_url_of(opt_text(self.api), self.reference.package@, self.reference.tag@),
    {
        self.base().concat("/").concat(self.reference.package.as_str()).concat(
            "/manifests/",
        ).concat(self.reference.tag.as_str())
    }

    /// The URL of one blob of the artifact.
    pub fn blob_url(&self, digest: &str) -> (r: String)
        ensures
            r@ == blob_url_of(opt_text(self.api), self.reference.package@, digest@),
    {
        self.base().concat("/").concat(self.reference.package.as_str()).concat("/blobs/").concat(
            digest,
        )
    }

    /// What the answer to the manifest request comes to: a status that is
    /// no success is an error that names the manifest's URL; a body that
    /// does not decode is an invalid response.
    pub fn manifest(&self, status: u16, body: Option<OciManifest>) -> (r: Result<
        OciManifest,
        DownloadError,
    >)
        ensures
            !(200 <= status < 300) ==> (r matches Err(DownloadError::ResourceError { url, status: s })
                && s == status && url@ == manifest_url_of(
                opt_text(self.api),
                self.reference.package@,
                self.reference.tag@,
            )),
            200 <= status < 300 && body is None ==> r matches Err(DownloadError::InvalidResponse),
            200 <= status < 300 && body is Some ==> r == Ok::<OciManifest, DownloadError>(body->0),
    {
        if !(200 <= status && status < 300) {
            return Err(DownloadError::ResourceError { url: self.manifest_url(), status });
        }
        match body {
            Some(manifest) => Ok(manifest),
            None => Err(DownloadError::InvalidResponse),
        }
    }

    /// Sets up the transfer of `layer` into the file `output_path`. The
    /// transfer resumes like a file download; it never asks before it
    /// overwrites.
    pub fn pull_layer(&self, layer: &OciLayer, output_path: &str) -> (transfer: Transfer)
        ensures
            transfer.wf(),
            transfer.phase is Created,
            transfer.attempt == 0,
            transfer.downloaded == 0,
            transfer.plan.kind is Layer,
            transfer.plan.explicit,
            transfer.plan.url@ == blob_url_of(
                opt_text(self.api),
                self.reference.package@,
                layer.digest@,
            ),
            transfer.plan.provisional_path@ == output_path@,
            transfer.target@ == output_path@,
            transfer.plan.final_dir is None,
            transfer.plan.part_path@ == output_path@ + part_suffix(),
            transfer.plan.meta_path@ == output_path@ + meta_suffix(),
            transfer.plan.file_mode == self.file_mode,
            !transfer.plan.extract_archive,
            transfer.plan.extract_dir is None,
    {
        let (part_path, meta_path) = ResumeSupport::get_part_paths(output_path);
        Transfer::new(
            Plan {
                kind: TransferKind::Layer,
                url: self.blob_url(layer.digest.as_str()),
                explicit: true,
                provisional_path: String::from_str(output_path),
                final_dir: None,
                part_path,
                meta_path,
                file_mode: self.file_mode,
                extract_archive: false,
                extract_dir: None,
            },
        )
    }
}

} // verus!
