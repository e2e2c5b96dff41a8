//! Downloads of single files and of registry artifacts: what is fetched,
//! where it goes, and what is reported on the way.
use crate::error::DownloadError;
use crate::foreign::{parse_url, url_parse};
use crate::oci::{
    annotation, pairs, reference_of, title_key, OciClient, OciLayer, OciManifest, Reference,
};
use crate::path::{join, join_chars, parent, parent_chars};
use crate::resume::{meta_suffix, part_suffix, ResumeSupport};
use crate::text::{
    chars_of, rsplit_once, rsplit_once_chars, same_text, starts_with, string_of, trim_end,
    trim_end_chars, CharClass,
};
use crate::transfer::{counted, Plan, Transfer, TransferKind};
use crate::utils::{
    accepts, copy_opt, fallback_filename, filename_for_url, matches_pattern, opt_text, texts,
    FileMode, Filter,
};
use vstd::prelude::*;
use vstd::string::StringExecFns;

verus! {

/// What a download makes known while it runs.
#[derive(Clone, Copy, Debug, PartialEq, Eq, Structural)]
pub enum DownloadState {
    /// The transfer is about to start; the total size in bytes, 0 where it
    /// is not known.
    Preparing(u64),
    /// This many bytes are there so far.
    Progress(u64),
    Complete,
    Error,
    Aborted,
    Recovered,
}

/// What to download, and where to.
#[derive(Clone, Debug)]
pub struct DownloadOptions {
    pub url: String,
    /// A file, a directory (with a slash at its end, or existing), `-` for
    /// the standard output, or nothing.
    pub output_path: Option<String>,
    pub extract_archive: bool,
    pub extract_dir: Option<String>,
    pub file_mode: FileMode,
}

/// Sets up file downloads.
#[derive(Clone, Copy, Debug, Default)]
pub struct Downloader;

/// What to fetch from a registry, and where to.
#[derive(Clone, Debug)]
pub struct OciDownloadOptions {
    pub url: String,
    pub concurrency: Option<u64>,
    pub output_path: Option<String>,
    pub api: Option<String>,
    pub regexes: Vec<String>,
    pub globs: Vec<String>,
    pub match_keywords: Vec<String>,
    pub exclude_keywords: Vec<String>,
    pub exact_case: bool,
    pub file_mode: FileMode,
}

/// The download of one artifact. It remembers the layers that it has
/// fetched, so that a second run fetches only the rest.
pub struct OciDownloader {
    pub manifest: Option<OciManifest>,
    pub options: OciDownloadOptions,
    /// The digests of the layers that are there; none occurs twice.
    pub completed_layers: Vec<String>,
    /// The bytes that the layers of the current run have received.
    pub downloaded_bytes: u64,
}

/// One layer to fetch, and the file it goes to.
pub struct LayerJob {
    pub layer: OciLayer,
    pub file_path: String,
}

/// The layers to fetch in one run.
pub struct LayerPlan {
    /// The size of all layers that passed the filter.
    pub total_bytes: u64,
    /// How many layers may be fetched at a time.
    pub permits: u64,
    /// The directory to create before anything is fetched.
    pub directory: Option<String>,
    /// The layers that are not there yet, in the manifest's order.
    pub jobs: Vec<LayerJob>,
}

/// How the download of an artifact begins.
pub enum OciStart {
    /// The reference names one blob: fetch it.
    Blob { client: OciClient, directory: Option<String>, job: LayerJob },
    /// Fetch the manifest, then hand it to `on_manifest`.
    FetchManifest { client: OciClient },
    /// The manifest is known: fetch these layers.
    Pull { client: OciClient, plan: LayerPlan },
    /// The manifest is known and no layer passes the filter.
    Fail { error: DownloadError },
}

/// What follows an attempt to download an artifact.
#[derive(Clone, Copy, Debug, PartialEq, Eq, Structural)]
pub enum RetryStep {
    /// The attempt succeeded.
    Done,
    /// Wait this many seconds, then try again.
    Wait { seconds: u64 },
    /// The attempt failed for the last time that is tried.
    Exhausted,
    /// The attempt failed in a way that trying again does not mend.
    Abort,
}

/// The output `-`, which stands for the standard output.
pub open spec fn names_stdout(output: Option<Seq<char>>) -> bool {
    output == Some(seq!['-'])
}

/// An output names a directory when it ends in a slash or a directory
/// exists there.
pub open spec fn names_directory(output: Seq<char>, is_dir: bool) -> bool {
    (output.len() > 0 && output.last() == '/') || is_dir
}

/// Whether the output names the target file in full.
pub open spec fn planned_explicit(output: Option<Seq<char>>, is_dir: bool) -> bool {
    output matches Some(out) && !names_directory(out, is_dir)
}

/// The directory that the output names, if it names one.
pub open spec fn planned_dir(output: Option<Seq<char>>, is_dir: bool) -> Option<Seq<char>> {
    match output {
        Some(out) => if names_directory(out, is_dir) {
            Some(out)
        } else {
            None
        },
        None => None,
    }
}

/// The target as far as it is known before the server answers: the output
/// where it names a file; else the file name of the URL, under the output
/// where that names a directory.
pub open spec fn planned_path(url: Seq<char>, output: Option<Seq<char>>, is_dir: bool) -> Seq<char> {
    match output {
        Some(out) => if names_directory(out, is_dir) {
            join(out, fallback_filename(url))
        } else {
            out
        },
        None => fallback_filename(url),
    }
}

/// What setting up a download comes to: a text that is no URL is refused;
/// otherwise the transfer has sent nothing yet, goes to the standard output
/// where the output is `-` and to a file else, and has its paths laid out.
pub open spec fn sets_up(
    url: Seq<char>,
    output: Option<Seq<char>>,
    output_is_dir: bool,
    extract_archive: bool,
    extract_dir: Option<Seq<char>>,
    file_mode: FileMode,
    outcome: Result<Transfer, DownloadError>,
) -> bool {
    match outcome {
        Ok(transfer) => {
            &&& url_parse(url) is Some
            &&& transfer.wf()
            &&& transfer.phase is Created
            &&& transfer.attempt == 0
            &&& transfer.downloaded == 0
            &&& transfer.plan.kind == if names_stdout(output) {
                TransferKind::Stdout
            } else {
                TransferKind::File
            }
            &&& transfer.plan.url@ == url
            &&& transfer.plan.explicit == planned_explicit(
                output,
                output_is_dir,
            )
            &&& transfer.plan.provisional_path@ == planned_path(
                url,
                output,
                output_is_dir,
            )
            &&& transfer.target@ == transfer.plan.provisional_path@
            &&& opt_text(transfer.plan.final_dir) == planned_dir(
                output,
                output_is_dir,
            )
            &&& transfer.plan.part_path@ == transfer.plan.provisional_path@ + part_suffix()
            &&& transfer.plan.meta_path@ == transfer.plan.provisional_path@ + meta_suffix()
            &&& transfer.plan.file_mode == file_mode
            &&& transfer.plan.extract_archive == extract_archive
            &&& opt_text(transfer.plan.extract_dir) == extract_dir
        },
        Err(error) => {
            &&& url_parse(url) is None
            &&& error matches DownloadError::InvalidUrl { url: refused, .. }
            &&& refused@ == url
        },
    }
}

/// A failure is worth another attempt when the server asks to slow down
/// or the body broke off.
pub open spec fn is_retryable(error: DownloadError) -> bool {
    ||| error matches DownloadError::ResourceError { status, .. } && status == 429
    ||| error is ChunkError
}

/// An attempt that failed in a retryable way is repeated after 5 seconds,
/// up to 5 times.
pub open spec fn retry_step(retries: u32, failure: Option<DownloadError>) -> RetryStep {
    match failure {
        None => RetryStep::Done,
        Some(error) => if is_retryable(error) {
            if retries < 5 {
                RetryStep::Wait { seconds: 5 }
            } else {
                RetryStep::Exhausted
            }
        } else {
            RetryStep::Abort
        },
    }
}

/// Decides what follows an attempt, `retries` being the number of attempts
/// that were repeated before it.
pub fn after_attempt(retries: u32, failure: Option<&DownloadError>) -> (step: RetryStep)
    ensures
        step == retry_step(
            retries,
            match failure {
                Some(error) => Some(*error),
                None => None,
            },
        ),
{
    match failure {
        None => RetryStep::Done,
        Some(error) => {
            let retryable = match error {
                DownloadError::ResourceError { status, .. } => *status == 429,
                DownloadError::ChunkError => true,
                _ => false,
            };
            if retryable {
                if retries < 5 {
                    RetryStep::Wait { seconds: 5 }
                } else {
                    RetryStep::Exhausted
                }
            } else {
                RetryStep::Abort
            }
        },
    }
}

/// The directory that holds `path`, which is created before a download
/// writes there.
pub fn target_directory(path: &str) -> (r: Option<String>)
    ensures
        opt_text(r) == parent(path@),
{
    match parent_chars(&chars_of(path)) {
        Some(dir) => Some(string_of(&dir)),
        None => None,
    }
}

impl Downloader {
    /// Sets up the download that `options` describe. `output_is_dir` says
    /// whether a directory exists at the output path. The text given as URL
    /// must be one.
    pub fn download(&self, options: &DownloadOptions, output_is_dir: bool) -> (r: Result<
        Transfer,
        DownloadError,
    >)
        ensures
            sets_up(
                options.url@,
                opt_text(options.output_path),
                output_is_dir,
                options.extract_archive,
                opt_text(options.extract_dir),
                options.file_mode,
                r,
            ),
    {
        match parse_url(options.url.as_str()) {
            Ok(_) => {},
            Err(source) => {
                return Err(
                    DownloadError::InvalidUrl {
                        url: String::from_str(options.url.as_str()),
                        source,
                    },
                );
            },
        }
        let mut kind = TransferKind::File;
        let mut explicit = false;
        let mut final_dir: Option<String> = None;
        let provisional_path = match &options.output_path {
            Some(out) => {
                let o = chars_of(out.as_str());
                if o.len() == 1 && o[0] == '-' {
                    assert(o@ =~= seq!['-']);
                    kind = TransferKind::Stdout;
                }
                if (o.len() > 0 && o[o.len() - 1] == '/') || output_is_dir {
                    let base = filename_for_url(options.url.as_str());
                    final_dir = Some(String::from_str(out.as_str()));
                    string_of(&join_chars(&o, &chars_of(base.as_str())))
                } else {
                    explicit = true;
                    String::from_str(out.as_str())
                }
            },
            None => filename_for_url(options.url.as_str()),
        };
        let (part_path, meta_path) = ResumeSupport::get_part_paths(provisional_path.as_str());
        Ok(
            Transfer::new(
                Plan {
                    kind,
                    url: String::from_str(options.url.as_str()),
                    explicit,
                    provisional_path,
                    final_dir,
                    part_path,
                    meta_path,
                    file_mode: options.file_mode,
                    extract_archive: options.extract_archive,
                    extract_dir: copy_opt(&options.extract_dir),
                },
            ),
        )
    }
}

impl OciDownloadOptions {
    /// The filter that the options set.
    pub open spec fn filter(self) -> Filter {
        Filter {
            regexes: texts(self.regexes@),
            globs: texts(self.globs@),
            match_keywords: texts(self.match_keywords@),
            exclude_keywords: texts(self.exclude_keywords@),
            exact_case: self.exact_case,
        }
    }
}

/// The file name that a layer carries.
pub open spec fn layer_title(layer: OciLayer) -> Option<Seq<char>> {
    annotation(pairs(layer.annotations@), title_key())
}

/// A layer passes when it carries a file name and the name passes the
/// filter.
pub open spec fn layer_passes(layer: OciLayer, filter: Filter) -> bool {
    match layer_title(layer) {
        Some(title) => accepts(
            title,
            filter.regexes,
            filter.globs,
            filter.match_keywords,
            filter.exclude_keywords,
            filter.exact_case,
        ),
        None => false,
    }
}

/// The layers that pass the filter, in their order.
pub open spec fn selected(layers: Seq<OciLayer>, filter: Filter) -> Seq<OciLayer>
    decreases layers.len(),
{
    if layers.len() == 0 {
        Seq::empty()
    } else if layer_passes(layers.last(), filter) {
        selected(layers.drop_last(), filter).push(layers.last())
    } else {
        selected(layers.drop_last(), filter)
    }
}

/// The sum of the sizes of `layers`.
pub open spec fn total_size(layers: Seq<OciLayer>) -> nat
    decreases layers.len(),
{
    if layers.len() == 0 {
        0
    } else {
        total_size(layers.drop_last()) + layers.last().size as nat
    }
}

/// Whether `digest` is among `completed`.
pub open spec fn is_completed(completed: Seq<Seq<char>>, digest: Seq<char>) -> bool {
    exists|i: int| 0 <= i < completed.len() && #[trigger] completed[i] == digest
}

/// The layers among `layers` that are not there yet, in their order.
pub open spec fn pending(layers: Seq<OciLayer>, completed: Seq<Seq<char>>) -> Seq<OciLayer>
    decreases layers.len(),
{
    if layers.len() == 0 {
        Seq::empty()
    } else if is_completed(completed, layers.last().digest@) {
        pending(layers.drop_last(), completed)
    } else {
        pending(layers.drop_last(), completed).push(layers.last())
    }
}

/// A size as far as 64 bits hold it.
pub open spec fn clipped(n: nat) -> u64 {
    if n <= u64::MAX {
        n as u64
    } else {
        u64::MAX
    }
}

/// The directory under which the layers are stored, as a path to join to.
pub open spec fn layer_base(output: Option<Seq<char>>) -> Seq<char> {
    match output {
        Some(dir) => dir,
        None => Seq::empty(),
    }
}

/// `job` fetches `layer` into its file under `base`.
pub open spec fn job_fetches(job: LayerJob, layer: OciLayer, base: Seq<char>) -> bool {
    &&& job.layer.digest@ == layer.digest@
    &&& job.layer.media_type@ == layer.media_type@
    &&& job.layer.size == layer.size
    &&& pairs(job.layer.annotations@) == pairs(layer.annotations@)
    &&& layer_title(layer) matches Some(title) && job.file_path@ == join(base, title)
}

/// `jobs` fetch `layers`, one each, in order.
pub open spec fn jobs_fetch(jobs: Seq<LayerJob>, layers: Seq<OciLayer>, base: Seq<char>) -> bool {
    &&& jobs.len() == layers.len()
    &&& forall|i: int| 0 <= i < jobs.len() ==> job_fetches(#[trigger] jobs[i], layers[i], base)
}

/// The name under which a blob is stored when the output names none: the
/// last segment of the package, or the digest where the package has one
/// segment only.
pub open spec fn blob_name(package: Seq<char>, digest: Seq<char>) -> Seq<char> {
    match rsplit_once(package, '/') {
        Some(halves) => halves.1,
        None => digest,
    }
}

/// The path that the output gives a blob: the output, or the blob's name.
pub open spec fn blob_output(
    package: Seq<char>,
    digest: Seq<char>,
    output: Option<Seq<char>>,
) -> Seq<char> {
    match output {
        Some(out) => out,
        None => blob_name(package, digest),
    }
}

/// The directory to create for a blob: its output path, where that ends in
/// a slash.
pub open spec fn blob_directory(
    package: Seq<char>,
    digest: Seq<char>,
    output: Option<Seq<char>>,
) -> Option<Seq<char>> {
    let file_path = blob_output(package, digest, output);
    if file_path.len() > 0 && file_path.last() == '/' {
        Some(file_path)
    } else {
        None
    }
}

/// The file that a blob goes to: its output path, or the blob's name under
/// it where it ends in a slash.
pub open spec fn blob_file_path(
    package: Seq<char>,
    digest: Seq<char>,
    output: Option<Seq<char>>,
) -> Seq<char> {
    let name = blob_name(package, digest);
    let file_path = blob_output(package, digest, output);
    if file_path.len() > 0 && file_path.last() == '/' {
        trim_end(file_path, CharClass::Just('/')) + seq!['/'] + name
    } else {
        file_path
    }
}

impl OciDownloader {
    /// No digest occurs twice among the completed layers.
    pub open spec fn wf(&self) -> bool {
        texts(self.completed_layers@).no_duplicates()
    }

    /// A download that has fetched nothing yet.
    pub fn new(options: OciDownloadOptions) -> (downloader: OciDownloader)
        ensures
            downloader.wf(),
            downloader.options == options,
            downloader.manifest is None,
            downloader.completed_layers@.len() == 0,
            downloader.downloaded_bytes == 0,
    {
        OciDownloader {
            manifest: None,
            options,
            completed_layers: Vec::new(),
            downloaded_bytes: 0,
        }
    }

    /// Whether the layer `digest` is there.
    pub fn has_completed(&self, digest: &str) -> (r: bool)
        ensures
            r == is_completed(texts(self.completed_layers@), digest@),
    {
        let mut i: usize = 0;
        while i < self.completed_layers.len()
            invariant
                i <= self.completed_layers.len(),
                forall|j: int| 0 <= j < i ==> texts(self.completed_layers@)[j] != digest@,
            decreases self.completed_layers.len() - i,
        {
            assert(texts(self.completed_layers@)[i as int] == self.completed_layers@[i as int]@);
            if same_text(self.completed_layers[i].as_str(), digest) {
                return true;
            }
            i += 1;
        }
        false
    }

    /// The transfer of one blob that the reference names by its digest.
    /// The layer that is fetched is made up for the purpose: it has the
    /// digest, the media type `application/octet-stream` and no size.
    pub fn download_blob(&self, client: &OciClient) -> (r: (Option<String>, LayerJob))
        ensures
            r.1.layer.digest@ == client.reference.tag@,
            r.1.layer.media_type@ == "application/octet-stream"@,
            r.1.layer.size == 0,
            r.1.layer.annotations@.len() == 0,
            r.1.file_path@ == blob_file_path(
                client.reference.package@,
                client.reference.tag@,
                opt_text(self.options.output_path),
            ),
            opt_text(r.0) == blob_directory(
                client.reference.package@,
                client.reference.tag@,
                opt_text(self.options.output_path),
            ),
    {
        let package = chars_of(client.reference.package.as_str());
        let name = match rsplit_once_chars(&package, '/') {
            Some((_, name)) => name,
            None => chars_of(client.reference.tag.as_str()),
        };
        let chosen = match &self.options.output_path {
            Some(out) => chars_of(out.as_str()),
            None => crate::text::slice(&name, 0, name.len()),
        };
        assert(name@.subrange(0, name@.len() as int) == name@);
        let mut directory: Option<String> = None;
        let file_path = if chosen.len() > 0 && chosen[chosen.len() - 1] == '/' {
            directory = Some(string_of(&chosen));
            let mut path = trim_end_chars(&chosen, CharClass::Just('/'));
            path.push('/');
            crate::text::append(&mut path, &name);
            string_of(&path)
        } else {
            string_of(&chosen)
        };
        let layer = OciLayer {
            media_type: String::from_str("application/octet-stream"),
            digest: String::from_str(client.reference.tag.as_str()),
            size: 0,
            annotations: Vec::new(),
        };
        (directory, LayerJob { layer, file_path })
    }

    /// Plans the fetching of the layers of `manifest`.
    fn plan(&self, manifest: &OciManifest) -> (r: Result<LayerPlan, DownloadError>)
        ensures
            match r {
                Ok(plan) => {
                    let chosen = selected(manifest.layers@, self.options.filter());
                    &&& chosen.len() > 0
                    &&& plan.total_bytes == clipped(total_size(chosen))
                    &&& plan.permits == match self.options.concurrency {
                        Some(n) => n,
                        None => 1,
                    }
                    &&& opt_text(plan.directory) == opt_text(self.options.output_path)
                    &&& jobs_fetch(
                        plan.jobs@,
                        pending(chosen, texts(self.completed_layers@)),
                        layer_base(opt_text(self.options.output_path)),
                    )
                },
                Err(error) => error is LayersNotFound && selected(
                    manifest.layers@,
                    self.options.filter(),
                ).len() == 0,
            },
    {
        let ghost filter = self.options.filter();
        let ghost done = texts(self.completed_layers@);
        let ghost base = layer_base(opt_text(self.options.output_path));
        let base_dir = match &self.options.output_path {
            Some(dir) => chars_of(dir.as_str()),
            None => Vec::new(),
        };
        let mut jobs: Vec<LayerJob> = Vec::new();
        let mut total: u64 = 0;
        let mut any = false;
        let mut i: usize = 0;
        assert(manifest.layers@.take(0) =~= Seq::empty());
        while i < manifest.layers.len()
            invariant
                i <= manifest.layers.len(),
                filter == self.options.filter(),
                done == texts(self.completed_layers@),
                base == layer_base(opt_text(self.options.output_path)),
                base_dir@ == base,
                any == (selected(manifest.layers@.take(i as int), filter).len() > 0),
                total == clipped(total_size(selected(manifest.layers@.take(i as int), filter))),
                jobs_fetch(
                    jobs@,
                    pending(selected(manifest.layers@.take(i as int), filter), done),
                    base,
                ),
            decreases manifest.layers.len() - i,
        {
            let layer = &manifest.layers[i];
            let ghost seen = manifest.layers@.take(i as int);
            let ghost next = manifest.layers@.take(i + 1);
            proof {
                assert(next.drop_last() == seen);
                assert(next.last() == *layer);
            }
            let passes = match layer.get_title() {
                Some(title) => {
                    if matches_pattern(
                        title.as_str(),
                        self.options.regexes.as_slice(),
                        self.options.globs.as_slice(),
                        self.options.match_keywords.as_slice(),
                        self.options.exclude_keywords.as_slice(),
                        self.options.exact_case,
                    ) {
                        Some(title)
                    } else {
                        None
                    }
                },
                None => None,
            };
            match passes {
                Some(title) => {
                    let ghost chosen = selected(seen, filter);
                    assert(selected(next, filter) == chosen.push(*layer));
                    assert(selected(next, filter).drop_last() == chosen);
                    any = true;
                    total = total.saturating_add(layer.size);
                    if !self.has_completed(layer.digest.as_str()) {
                        let file_path = string_of(
                            &join_chars(&base_dir, &chars_of(title.as_str())),
                        );
                        let ghost before = jobs@;
                        let ghost waiting = pending(chosen, done);
                        jobs.push(LayerJob { layer: layer.copy(), file_path });
                        proof {
                            let grown = waiting.push(*layer);
                            assert(pending(selected(next, filter), done) == grown);
                            assert forall|k: int| 0 <= k < jobs@.len() implies job_fetches(
                                #[trigger] jobs@[k],
                                grown[k],
                                base,
                            ) by {
                                if k < before.len() {
                                    assert(jobs@[k] == before[k]);
                                    assert(grown[k] == waiting[k]);
                                }
                            }
                        }
                    }
                },
                None => {
                    assert(selected(next, filter) == selected(seen, filter));
                },
            }
            i += 1;
        }
        assert(manifest.layers@.take(i as int) == manifest.layers@);
        if !any {
            return Err(DownloadError::LayersNotFound);
        }
        let permits = match self.options.concurrency {
            Some(n) => n,
            None => 1,
        };
        Ok(
            LayerPlan {
                total_bytes: total,
                permits,
                directory: copy_opt(&self.options.output_path),
                jobs,
            },
        )
    }

    /// Begins a run: reads the reference and says what to fetch first. The
    /// count of received bytes starts at 0.
    pub fn download_oci(&mut self) -> (start: OciStart)
        requires
            old(self).wf(),
        ensures
            final(self).wf(),
            final(self).options == old(self).options,
            final(self).manifest == old(self).manifest,
            final(self).completed_layers == old(self).completed_layers,
            final(self).downloaded_bytes == 0,
            ({
                let reference = reference_of(old(self).options.url@);
                if starts_with(reference.1, "sha256:"@) {
                    &&& start matches OciStart::Blob { client, directory, job }
                    &&& Self::client_for(client, old(self).options)
                    &&& job.layer.digest@ == reference.1
                    &&& job.layer.media_type@ == "application/octet-stream"@
                    &&& job.layer.size == 0
                    &&& job.layer.annotations@.len() == 0
                    &&& job.file_path@ == blob_file_path(
                        reference.0,
                        reference.1,
                        opt_text(old(self).options.output_path),
                    )
                    &&& opt_text(directory) == blob_directory(
                        reference.0,
                        reference.1,
                        opt_text(old(self).options.output_path),
                    )
                } else {
                    match old(self).manifest {
                        None => start matches OciStart::FetchManifest { client }
                            && Self::client_for(client, old(self).options),
                        Some(manifest) => {
                            let chosen = selected(manifest.layers@, old(self).options.filter());
                            if chosen.len() == 0 {
                                start matches OciStart::Fail { error } && error is LayersNotFound
                            } else {
                                &&& start matches OciStart::Pull { client, plan }
                                &&& Self::client_for(client, old(self).options)
                                &&& Self::plans(*old(self), manifest, plan)
                            }
                        },
                    }
                }
            }),
    {
        self.downloaded_bytes = 0;
        let reference = Reference::from_str(self.options.url.as_str());
        let client = OciClient::new(
            &reference,
            copy_opt(&self.options.api),
            self.options.file_mode,
        );
        if reference.is_blob() {
            let (directory, job) = self.download_blob(&client);
            return OciStart::Blob { client, directory, job };
        }
        match &self.manifest {
            None => OciStart::FetchManifest { client },
            Some(manifest) => match self.plan(manifest) {
                Ok(plan) => OciStart::Pull { client, plan },
                Err(error) => OciStart::Fail { error },
            },
        }
    }

    /// `client` is the client that `options` ask for.
    pub open spec fn client_for(client: OciClient, options: OciDownloadOptions) -> bool {
        &&& (client.reference.package@, client.reference.tag@) == reference_of(options.url@)
        &&& opt_text(client.api) == opt_text(options.api)
        &&& client.file_mode == options.file_mode
    }

    /// `plan` fetches what a downloader in the state `state` lacks of
    /// `manifest`.
    pub open spec fn plans(state: OciDownloader, manifest: OciManifest, plan: LayerPlan) -> bool {
        let chosen = selected(manifest.layers@, state.options.filter());
        &&& plan.total_bytes == clipped(total_size(chosen))
        &&& plan.permits == match state.options.concurrency {
            Some(n) => n,
            None => 1,
        }
        &&& opt_text(plan.directory) == opt_text(state.options.output_path)
        &&& jobs_fetch(
            plan.jobs@,
            pending(chosen, texts(state.completed_layers@)),
            layer_base(opt_text(state.options.output_path)),
        )
    }

    /// Takes the manifest that was fetched, keeps it, and plans the
    /// fetching of its layers. Where no layer passes the filter there is
    /// nothing to download.
    pub fn on_manifest(&mut self, manifest: OciManifest) -> (r: Result<LayerPlan, DownloadError>)
        requires
            old(self).wf(),
        ensures
            final(self).wf(),
            final(self).options == old(self).options,
            final(self).manifest == Some(manifest),
            final(self).completed_layers == old(self).completed_layers,
            final(self).downloaded_bytes == old(self).downloaded_bytes,
            match r {
                Ok(plan) => selected(manifest.layers@, old(self).options.filter()).len() > 0
                    && Self::plans(*old(self), manifest, plan),
                Err(error) => error is LayersNotFound && selected(
                    manifest.layers@,
                    old(self).options.filter(),
                ).len() == 0,
            },
    {
        let r = self.plan(&manifest);
        self.manifest = Some(manifest);
        r
    }

    /// The state with which a run announces itself.
    pub fn preparing(plan: &LayerPlan) -> (state: DownloadState)
        ensures
            state == DownloadState::Preparing(plan.total_bytes),
    {
        DownloadState::Preparing(plan.total_bytes)
    }

    /// Counts `delta` bytes that some layer has received; returns the state
    /// to report. The count never goes down.
    pub fn layer_progress(&mut self, delta: u64) -> (state: DownloadState)
        requires
            old(self).wf(),
        ensures
            final(self).wf(),
            final(self).options == old(self).options,
            final(self).manifest == old(self).manifest,
            final(self).completed_layers == old(self).completed_layers,
            final(self).downloaded_bytes == counted(old(self).downloaded_bytes, delta),
            final(self).downloaded_bytes >= old(self).downloaded_bytes,
            state == DownloadState::Progress(final(self).downloaded_bytes),
    {
        self.downloaded_bytes = self.downloaded_bytes.saturating_add(delta);
        DownloadState::Progress(self.downloaded_bytes)
    }

    /// Counts `delta` bytes that a blob has received; returns the states to
    /// report. The total is announced where it is known.
    pub fn blob_progress(&mut self, delta: u64, total: u64) -> (states: (
        Option<DownloadState>,
        DownloadState,
    ))
        requires
            old(self).wf(),
        ensures
            final(self).wf(),
            final(self).options == old(self).options,
            final(self).manifest == old(self).manifest,
            final(self).completed_layers == old(self).completed_layers,
            final(self).downloaded_bytes == counted(old(self).downloaded_bytes, delta),
            states.0 == if total > 0 {
                Some(DownloadState::Preparing(total))
            } else {
                None
            },
            states.1 == DownloadState::Progress(final(self).downloaded_bytes),
    {
        let announce = if total > 0 {
            Some(DownloadState::Preparing(total))
        } else {
            None
        };
        (announce, self.layer_progress(delta))
    }

    /// Records that the layer `digest` is there.
    pub fn layer_completed(&mut self, digest: &str)
        requires
            old(self).wf(),
        ensures
            final(self).wf(),
            final(self).options == old(self).options,
            final(self).manifest == old(self).manifest,
            final(self).downloaded_bytes == old(self).downloaded_bytes,
            is_completed(texts(final(self).completed_layers@), digest@),
            texts(final(self).completed_layers@) == if is_completed(
                texts(old(self).completed_layers@),
                digest@,
            ) {
                texts(old(self).completed_layers@)
            } else {
                texts(old(self).completed_layers@).push(digest@)
            },
    {
        if !self.has_completed(digest) {
            let ghost before = texts(self.completed_layers@);
            self.completed_layers.push(String::from_str(digest));
            assert(texts(self.completed_layers@) == before.push(digest@));
            assert(texts(self.completed_layers@)[before.len() as int] == digest@);
        }
    }
}

} // verus!
