//! The TUF repository: where its remote lives, how target paths and URLs are
//! formed, and the policy that decides whether a verification failure is
//! fatal or tolerated. The network and file work itself is done by the
//! caller, which hands each outcome back to the functions here.

use vstd::prelude::*;
use crate::config::{path_join, join_path, TufConfig, TufMode};
use crate::manifest::hex_lower;
use crate::text::{concat2, owned, str_equal};
use crate::time::{is_after, later_than, UtcInstant};

verus! {

/// Whether a TUF operation verified what it returned.
#[derive(Clone, Copy, Debug, PartialEq, Eq, Structural)]
pub enum Verification {
    Verified,
    Skipped,
}

/// A failed TUF verification, as far as the policy reads it: its message and
/// the expiry instants of the metadata that it reports as expired.
#[derive(Clone, Debug, PartialEq, Eq)]
pub struct VerificationFailure {
    pub message: String,
    pub expired: Vec<UtcInstant>,
}

/// Errors of the repository's own making (as opposed to TUF verification failures).
#[derive(Clone, Debug, PartialEq, Eq)]
pub enum TufError {
    /// The target path is not one that TUF accepts; `reason` is what the
    /// `tuf` crate's `Error::IllegalArgument` says of it.
    InvalidTargetPath { target: String, reason: String },
    /// The repository location is neither a directory nor a URL.
    InvalidUrl { url: String },
    /// A `file:` URL that names no local path.
    InvalidFileUrl { url: String },
    /// A URL whose scheme is neither `file`, `http` nor `https`.
    UnsupportedScheme { scheme: String, url: String },
    /// A URL to which no path segments can be added.
    NotABaseUrl { url: String },
}

/// Why the `tuf` crate's `TargetPath::new` refuses a path (the argument of
/// the `Error::IllegalArgument` it returns), or `None` where it accepts it.
pub uninterp spec fn tuf_target_path_refusal(path: Seq<char>) -> Option<Seq<char>>;

/// Whether the `tuf` crate's `TargetPath::new` accepts a path.
pub open spec fn tuf_target_path_valid(path: Seq<char>) -> bool {
    tuf_target_path_refusal(path) is None
}

/// Calls `tuf::metadata::TargetPath::new`; claims that the outcome is a
/// function of the path and, as its source shows, that an empty path or one
/// that starts with `/` is refused.
#[verifier::external_body]
fn target_path_refusal(path: &str) -> (r: Option<String>)
    ensures
        match (r, tuf_target_path_refusal(path@)) {
            (Some(reason), Some(expected)) => reason@ == expected,
            (None, None) => true,
            _ => false,
        },
        path@.len() == 0 ==> r is Some,
        path@.len() > 0 && path@[0] == '/' ==> r is Some,
{
    match tuf::metadata::TargetPath::new(path.to_string()) {
        Ok(_) => None,
        Err(tuf::Error::IllegalArgument(reason)) => Some(reason),
        Err(other) => Some(other.to_string()),
    }
}

/// The policy state of a TUF repository: the configuration it was opened with.
pub struct TufRepository {
    config: TufConfig,
}

/// Some metadata in `failure` expired after `after`.
pub open spec fn expired_after(expired: Seq<UtcInstant>, after: UtcInstant) -> bool {
    exists|i: int| 0 <= i < expired.len() && is_after(#[trigger] expired[i], after)
}

/// The failure only concerns metadata expiry that `RUSTUP_TUF_IGNOREDATE` covers.
pub open spec fn expiry_is_ignored(config: TufConfig, expired: Seq<UtcInstant>) -> bool {
    match config.ignore_expiry_after {
        Some(after) => expired_after(expired, after),
        None => false,
    }
}

/// A verification failure is tolerated in `off` and `warn` mode, with
/// `RUSTUP_TUF_IGNORE=1`, or where the expiry it reports is ignored.
pub open spec fn failure_tolerated(config: TufConfig, expired: Seq<UtcInstant>) -> bool {
    ||| config.mode == TufMode::Off
    ||| config.mode == TufMode::Warn
    ||| config.ignore_failures
    ||| expiry_is_ignored(config, expired)
}

/// What the policy answers to a failure: tolerated failures are skipped,
/// the others are passed back unchanged.
pub open spec fn tolerate_spec(config: TufConfig, failure: VerificationFailure) -> Result<
    Verification,
    VerificationFailure,
> {
    if failure_tolerated(config, failure.expired@) {
        Ok(Verification::Skipped)
    } else {
        Err(failure)
    }
}

/// The next step of `verify`.
#[derive(Clone, Copy, Debug, PartialEq, Eq, Structural)]
pub enum VerifyStep {
    /// Nothing to do: the answer is this.
    Done(Verification),
    /// Update the TUF metadata from the remote, then call `verify_finish`.
    UpdateMetadata,
}

/// The next step of `fetch_target`.
#[derive(Clone, Copy, Debug, PartialEq, Eq, Structural)]
pub enum FetchStep {
    /// Read the target through the TUF client, then call `fetch_after_verified_read`.
    ReadVerified,
    /// Read the target from the remote without verification; the result
    /// carries this verification.
    ReadUnverified(Verification),
}

/// What follows a verified read of a target.
#[derive(Debug, PartialEq, Eq)]
pub enum FetchOutcome {
    /// The target, verified.
    Done(Vec<u8>),
    /// The failure was tolerated: read the target unverified, and report this.
    ReadUnverified(Verification),
}

impl TufRepository {
    pub closed spec fn spec_config(&self) -> TufConfig {
        self.config
    }

    /// The policy state of a repository opened with `config`.
    pub fn new(config: TufConfig) -> (r: Self)
        ensures
            r.spec_config() == config,
    {
        TufRepository { config }
    }

    pub fn config(&self) -> (c: &TufConfig)
        ensures
            *c == self.spec_config(),
    {
        &self.config
    }

    /// Whether the failure reports expired metadata whose expiry is after the
    /// configured `RUSTUP_TUF_IGNOREDATE`.
    pub fn expiry_ignored(&self, failure: &VerificationFailure) -> (r: bool)
        ensures
            r == expiry_is_ignored(self.spec_config(), failure.expired@),
    {
        let ignore_after = match &self.config.ignore_expiry_after {
            Some(after) => *after,
            None => return false,
        };
        let n = failure.expired.len();
        let mut i: usize = 0;
        while i < n
            invariant
                n == failure.expired@.len(),
                i <= n,
                self.config.ignore_expiry_after == Some(ignore_after),
                forall|j: int| 0 <= j < i ==> !is_after(#[trigger] failure.expired@[j], ignore_after),
            decreases n - i,
        {
            if later_than(&failure.expired[i], &ignore_after) {
                return true;
            }
            i = i + 1;
        }
        false
    }

    /// Decides whether a verification failure is fatal: a tolerated failure
    /// gives `Skipped`, a fatal one is handed back.
    pub fn tolerate(&self, failure: VerificationFailure) -> (r: Result<
        Verification,
        VerificationFailure,
    >)
        ensures
            r == tolerate_spec(self.spec_config(), failure),
    {
        let tolerated = match self.config.mode {
            TufMode::Off => true,
            TufMode::Warn => true,
            TufMode::On => self.config.ignore_failures || self.expiry_ignored(&failure),
        };
        if tolerated {
            Ok(Verification::Skipped)
        } else {
            Err(failure)
        }
    }

    /// The first step of verifying the repository: in `off` mode the
    /// metadata is left alone and the answer is `Skipped`.
    pub fn verify_start(&self) -> (step: VerifyStep)
        ensures
            step == if self.spec_config().mode == TufMode::Off {
                VerifyStep::Done(Verification::Skipped)
            } else {
                VerifyStep::UpdateMetadata
            },
    {
        match self.config.mode {
            TufMode::Off => VerifyStep::Done(Verification::Skipped),
            _ => VerifyStep::UpdateMetadata,
        }
    }

    /// The answer of `verify` once the metadata update has given `update`.
    pub fn verify_finish(&self, update: Result<bool, VerificationFailure>) -> (r: Result<
        Verification,
        VerificationFailure,
    >)
        ensures
            match update {
                Ok(_) => r == Ok::<Verification, VerificationFailure>(Verification::Verified),
                Err(failure) => r == tolerate_spec(self.spec_config(), failure),
            },
    {
        match update {
            Ok(_) => Ok(Verification::Verified),
            Err(failure) => self.tolerate(failure),
        }
    }

    /// The first step of fetching `target`: a path that TUF does not accept
    /// is an error; in `off` mode the target is read without verification.
    pub fn fetch_start(&self, target: &str) -> (r: Result<FetchStep, TufError>)
        ensures
            !tuf_target_path_valid(target@) ==> (r matches Err(
                TufError::InvalidTargetPath { target: t, reason },
            ) && t@ == target@ && Some(reason@) == tuf_target_path_refusal(target@)),
            tuf_target_path_valid(target@) ==> r == Ok::<FetchStep, TufError>(
                if self.spec_config().mode == TufMode::Off {
                    FetchStep::ReadUnverified(Verification::Skipped)
                } else {
                    FetchStep::ReadVerified
                },
            ),
    {
        match target_path_refusal(target) {
            Some(reason) => {
                return Err(TufError::InvalidTargetPath { target: owned(target), reason });
            },
            None => {},
        }
        match self.config.mode {
            TufMode::Off => Ok(FetchStep::ReadUnverified(Verification::Skipped)),
            _ => Ok(FetchStep::ReadVerified),
        }
    }

    /// What follows a verified read that gave `read`: its bytes, or, where
    /// the failure is tolerated, an unverified read.
    pub fn fetch_after_verified_read(&self, read: Result<Vec<u8>, VerificationFailure>) -> (r: Result<
        FetchOutcome,
        VerificationFailure,
    >)
        ensures
            match read {
                Ok(bytes) => r == Ok::<FetchOutcome, VerificationFailure>(FetchOutcome::Done(bytes)),
                Err(failure) => match tolerate_spec(self.spec_config(), failure) {
                    Ok(v) => r == Ok::<FetchOutcome, VerificationFailure>(
                        FetchOutcome::ReadUnverified(v),
                    ),
                    Err(f) => r == Err::<FetchOutcome, VerificationFailure>(f),
                },
            },
    {
        match read {
            Ok(bytes) => Ok(FetchOutcome::Done(bytes)),
            Err(failure) => match self.tolerate(failure) {
                Ok(v) => Ok(FetchOutcome::ReadUnverified(v)),
                Err(f) => Err(f),
            },
        }
    }
}

} // verus!

verus! {

/// A path split after its last `/`: the directory part (with the `/`) and
/// the file name.
pub open spec fn split_file_name(path: Seq<char>) -> (Seq<char>, Seq<char>)
    decreases path.len(),
{
    if path.len() == 0 {
        (seq![], seq![])
    } else if path.last() == '/' {
        (path, seq![])
    } else {
        let (dir, file) = split_file_name(path.drop_last());
        (dir, file.push(path.last()))
    }
}

/// The path under which a consistent snapshot stores a target with the
/// given digest: the lower-case hex digest and a `.` in front of the file name.
pub open spec fn hash_prefixed_path(path: Seq<char>, digest: Seq<u8>) -> Seq<char> {
    let (dir, file) = split_file_name(path);
    dir + hex_lower(digest) + seq!['.'] + file
}

/// Whether the hash-prefixed path of `path` for `digest` is one TUF gives.
pub open spec fn hash_prefix_ok(path: Seq<char>, digest: Seq<u8>) -> bool {
    tuf_target_path_valid(path) && tuf_target_path_valid(hash_prefixed_path(path, digest))
}

/// Why no hash-prefixed path of `path` for `digest` can be formed: the
/// refusal of `path` itself, else that of the hash-prefixed path.
pub open spec fn hash_prefix_refusal(path: Seq<char>, digest: Seq<u8>) -> Seq<char> {
    match tuf_target_path_refusal(path) {
        Some(reason) => reason,
        None => match tuf_target_path_refusal(hash_prefixed_path(path, digest)) {
            Some(reason) => reason,
            None => seq![],
        },
    }
}

/// Calls `tuf::metadata::TargetPath::with_hash_prefix` on the target path
/// `path`; claims what its source does: the digest in lower-case hex and a
/// `.` are put in front of the file name, and the result goes through
/// `TargetPath::new` again, whose refusal is the error.
#[verifier::external_body]
fn with_hash_prefix(path: &str, digest: &[u8]) -> (r: Result<String, String>)
    ensures
        r is Ok <==> hash_prefix_ok(path@, digest@),
        r matches Ok(p) ==> p@ == hash_prefixed_path(path@, digest@),
        r matches Err(reason) ==> reason@ == hash_prefix_refusal(path@, digest@),
{
    match tuf::metadata::TargetPath::new(path.to_string()) {
        Ok(target) => match target.with_hash_prefix(&tuf::crypto::HashValue::new(digest.to_vec())) {
            Ok(prefixed) => Ok(prefixed.as_str().to_string()),
            Err(tuf::Error::IllegalArgument(reason)) => Err(reason),
            Err(other) => Err(other.to_string()),
        },
        Err(tuf::Error::IllegalArgument(reason)) => Err(reason),
        Err(other) => Err(other.to_string()),
    }
}

pub open spec fn digest_views(digests: Seq<Vec<u8>>) -> Seq<Seq<u8>> {
    digests.map_values(|d: Vec<u8>| d@)
}

/// The paths under which an unverified read looks for `path`, in order: in
/// a consistent snapshot whose targets metadata describes the target, one
/// hash-prefixed path per digest (`digests`), then the plain path.
pub open spec fn candidate_paths(path: Seq<char>, consistent_snapshot: bool, digests: Option<Seq<Seq<u8>>>) -> Seq<Seq<char>> {
    match digests {
        Some(ds) if consistent_snapshot => Seq::new(ds.len(), |i: int| hash_prefixed_path(path, ds[i])).push(path),
        _ => seq![path],
    }
}

/// The paths to try, in order, when reading `path` without verification.
/// `digests` are the digests that the trusted targets metadata records for
/// the target, where it records any.
pub fn unverified_candidates(
    path: &str,
    consistent_snapshot: bool,
    digests: Option<&Vec<Vec<u8>>>,
) -> (r: Result<Vec<String>, TufError>)
    ensures
        consistent_snapshot && digests is Some ==> {
            let ds = digests->0@;
            if forall|i: int| 0 <= i < ds.len() ==> hash_prefix_ok(path@, #[trigger] ds[i]@) {
                r matches Ok(v) && v@.map_values(|s: String| s@) == candidate_paths(
                    path@,
                    true,
                    Some(digest_views(ds)),
                )
            } else {
                r matches Err(TufError::InvalidTargetPath { target, reason }) && target@ == path@
                    && exists|k: int|
                    0 <= k < ds.len() && !hash_prefix_ok(path@, #[trigger] ds[k]@) && (forall|
                        j: int,
                    | 0 <= j < k ==> hash_prefix_ok(path@, #[trigger] ds[j]@)) && reason@
                        == hash_prefix_refusal(path@, ds[k]@)
            }
        },
        !(consistent_snapshot && digests is Some) ==> (r matches Ok(v) && v@.map_values(
            |s: String| s@,
        ) == seq![path@]),
{
    let mut candidates: Vec<String> = Vec::new();
    if consistent_snapshot {
        match digests {
            Some(ds) => {
                let n = ds.len();
                let mut i: usize = 0;
                while i < n
                    invariant
                        n == ds@.len(),
                        digests == Some(ds),
                        consistent_snapshot,
                        i <= n,
                        candidates@.len() == i,
                        forall|j: int| 0 <= j < i ==> hash_prefix_ok(path@, #[trigger] ds@[j]@),
                        forall|j: int|
                            0 <= j < i ==> #[trigger] candidates@[j]@ == hash_prefixed_path(
                                path@,
                                ds@[j]@,
                            ),
                    decreases n - i,
                {
                    match with_hash_prefix(path, ds[i].as_slice()) {
                        Ok(p) => candidates.push(p),
                        Err(reason) => {
                            assert(!hash_prefix_ok(path@, ds@[i as int]@));
                            assert(digests->0@[i as int] == ds@[i as int]);
                            assert(!(forall|j: int|
                                0 <= j < digests->0@.len() ==> hash_prefix_ok(
                                    path@,
                                    #[trigger] digests->0@[j]@,
                                )));
                            return Err(TufError::InvalidTargetPath { target: owned(path), reason });
                        },
                    }
                    i = i + 1;
                }
                candidates.push(owned(path));
                proof {
                    assert(candidates@.map_values(|s: String| s@) =~= candidate_paths(
                        path@,
                        consistent_snapshot,
                        Some(digest_views(ds@)),
                    ));
                }
                return Ok(candidates);
            },
            None => {},
        }
    }
    candidates.push(owned(path));
    proof {
        assert(candidates@.map_values(|s: String| s@) =~= seq![path@]);
    }
    Ok(candidates)
}

} // verus!

verus! {

/// A parsed URL: its serialization and its scheme.
#[derive(Clone, Debug, PartialEq, Eq)]
pub struct ParsedUrl {
    pub text: String,
    pub scheme: String,
}

/// What `url::Url::parse` gives for a string: the serialization and the
/// scheme of the URL, or `None` where it refuses the string.
pub uninterp spec fn url_parse_parts(input: Seq<char>) -> Option<(Seq<char>, Seq<char>)>;

/// The URL that `url`'s `path_segments_mut`, `pop_if_empty` and `extend`
/// make of the URL `base` and the segments, or `None` where `base` cannot be
/// a base.
pub uninterp spec fn url_append_segments(base: Seq<char>, segments: Seq<Seq<char>>) -> Option<Seq<char>>;

/// Calls `url::Url::parse`, and reads the URL's `as_str` and `scheme`;
/// claims that both are a function of the input.
#[verifier::external_body]
fn parse_url(input: &str) -> (r: Option<ParsedUrl>)
    ensures
        match (r, url_parse_parts(input@)) {
            (Some(u), Some((text, scheme))) => u.text@ == text && u.scheme@ == scheme,
            (None, None) => true,
            _ => false,
        },
{
    match url::Url::parse(input) {
        Ok(u) => Some(ParsedUrl { text: u.as_str().to_string(), scheme: u.scheme().to_string() }),
        Err(_) => None,
    }
}

pub open spec fn string_views(v: Seq<String>) -> Seq<Seq<char>> {
    v.map_values(|s: String| s@)
}

/// Calls `url::Url::path_segments_mut` on the URL `base`, drops a trailing
/// empty segment with `pop_if_empty` and appends `segments` with `extend`;
/// claims that the result is a function of `base` and the segments.
#[verifier::external_body]
fn append_path_segments(base: &str, segments: &Vec<String>) -> (r: Option<String>)
    ensures
        match (r, url_append_segments(base@, string_views(segments@))) {
            (Some(u), Some(expected)) => u@ == expected,
            (None, None) => true,
            _ => false,
        },
{
    let mut url = match url::Url::parse(base) {
        Ok(u) => u,
        Err(_) => return None,
    };
    match url.path_segments_mut() {
        Ok(mut path) => {
            path.pop_if_empty().extend(segments);
        },
        Err(()) => return None,
    }
    Some(url.as_str().to_string())
}

/// A TUF repository served over HTTP(S).
#[derive(Clone, Debug, PartialEq, Eq)]
pub struct HttpRepository {
    /// The serialized base URL.
    pub base: String,
    /// Directory for files being downloaded.
    pub tmp_dir: String,
}

/// Where the remote TUF repository lives.
#[derive(Clone, Debug, PartialEq, Eq)]
pub enum Remote {
    /// A repository in a local directory.
    FileSystem { path: String },
    /// A repository in the local directory that the `file:` URL `url` names;
    /// which path that is depends on the platform (`Url::to_file_path`), and
    /// [`Remote::file_url_path`] decides what becomes of it.
    FileUrl { url: String },
    Http(HttpRepository),
}

/// Directory under the TUF home for files being downloaded.
pub open spec fn tmp_dir_name() -> Seq<char> {
    "tmp"@
}

impl HttpRepository {
    pub fn new(base: String, tmp_dir: String) -> (r: Self)
        ensures
            r.base == base,
            r.tmp_dir == tmp_dir,
    {
        HttpRepository { base, tmp_dir }
    }

    /// The URL of a file of the repository: the base URL with `prefix` and
    /// then `components` appended as path segments.
    pub fn url(&self, prefix: &str, components: &Vec<String>) -> (r: Result<String, TufError>)
        ensures
            match url_append_segments(self.base@, seq![prefix@] + string_views(components@)) {
                Some(u) => r matches Ok(s) && s@ == u,
                None => r matches Err(TufError::NotABaseUrl { url }) && url@ == self.base@,
            },
    {
        let mut segments: Vec<String> = Vec::new();
        segments.push(owned(prefix));
        let n = components.len();
        let mut i: usize = 0;
        while i < n
            invariant
                n == components@.len(),
                i <= n,
                string_views(segments@) =~= seq![prefix@] + string_views(components@.take(i as int)),
            decreases n - i,
        {
            let ghost before = segments@;
            segments.push(owned(components[i].as_str()));
            proof {
                assert(components@.take(i + 1) =~= components@.take(i as int).push(components@[i as int]));
                assert(string_views(segments@) =~= string_views(before).push(components@[i as int]@));
                assert(string_views(components@.take(i + 1)) =~= string_views(
                    components@.take(i as int),
                ).push(components@[i as int]@));
            }
            i = i + 1;
        }
        proof {
            assert(components@.take(n as int) =~= components@);
        }
        match append_path_segments(self.base.as_str(), &segments) {
            Some(u) => Ok(u),
            None => Err(TufError::NotABaseUrl { url: owned(self.base.as_str()) }),
        }
    }
}

/// The remote that a location names.
pub open spec fn remote_for(
    location: Seq<char>,
    is_directory: bool,
    home: Seq<char>,
    r: Result<Remote, TufError>,
) -> bool {
    if is_directory {
        r matches Ok(Remote::FileSystem { path }) && path@ == location
    } else {
        match url_parse_parts(location) {
            None => r matches Err(TufError::InvalidUrl { url }) && url@ == location,
            Some((text, scheme)) => if scheme == "file"@ {
                r matches Ok(Remote::FileUrl { url }) && url@ == text
            } else if scheme == "http"@ || scheme == "https"@ {
                r matches Ok(Remote::Http(repo)) && repo.base@ == text && repo.tmp_dir@
                    == path_join(home, tmp_dir_name())
            } else {
                r matches Err(TufError::UnsupportedScheme { scheme: s, url }) && s@ == scheme
                    && url@ == text
            },
        }
    }
}

impl Remote {
    /// The directory of the repository at the `file:` URL `url`, given the
    /// local path that `Url::to_file_path` finds for the URL on this
    /// platform, if any.
    pub fn file_url_path<P>(path: Option<P>, url: &str) -> (r: Result<P, TufError>)
        ensures
            match path {
                Some(p) => r == Ok::<P, TufError>(p),
                None => r matches Err(TufError::InvalidFileUrl { url: u }) && u@ == url@,
            },
    {
        match path {
            Some(p) => Ok(p),
            None => Err(TufError::InvalidFileUrl { url: owned(url) }),
        }
    }

    /// The remote at `location`: the directory itself where `location` is a
    /// directory (`is_directory`), otherwise the repository at the URL; for
    /// a `file:` URL, the URL whose local path is to be looked up.
    pub fn from_location(location: &str, is_directory: bool, config: &TufConfig) -> (r: Result<
        Remote,
        TufError,
    >)
        ensures
            remote_for(location@, is_directory, config.home@, r),
    {
        if is_directory {
            return Ok(Remote::FileSystem { path: owned(location) });
        }
        let url = match parse_url(location) {
            Some(u) => u,
            None => return Err(TufError::InvalidUrl { url: owned(location) }),
        };
        if str_equal(url.scheme.as_str(), "file") {
            Ok(Remote::FileUrl { url: url.text })
        } else if str_equal(url.scheme.as_str(), "http") || str_equal(url.scheme.as_str(), "https") {
            let tmp_dir = join_path(config.home.as_str(), "tmp");
            Ok(Remote::Http(HttpRepository::new(url.text, tmp_dir)))
        } else {
            Err(TufError::UnsupportedScheme { scheme: url.scheme, url: url.text })
        }
    }
}

/// A failed download, as the remote reports it.
#[derive(Clone, Debug, PartialEq, Eq)]
pub enum DownloadError {
    /// The server has no file at `url`.
    NotExists { url: String },
    /// Any other failure.
    Other { message: String },
}

/// Whether a failed download means that the file does not exist.
pub fn is_not_found(err: &DownloadError) -> (r: bool)
    ensures
        r == (err is NotExists),
{
    match err {
        DownloadError::NotExists { .. } => true,
        DownloadError::Other { .. } => false,
    }
}

} // verus!

verus! {

/// In `off` and `warn` mode, and with `RUSTUP_TUF_IGNORE=1`, every
/// verification failure is tolerated and reported as skipped verification.
pub proof fn lemma_lenient_settings_tolerate_every_failure(
    config: TufConfig,
    failure: VerificationFailure,
)
    requires
        config.mode == TufMode::Off || config.mode == TufMode::Warn || config.ignore_failures,
    ensures
        tolerate_spec(config, failure) == Ok::<Verification, VerificationFailure>(
            Verification::Skipped,
        ),
{
}

/// In `on` mode, with neither `RUSTUP_TUF_IGNORE` nor `RUSTUP_TUF_IGNOREDATE`,
/// every verification failure is fatal and handed back unchanged.
pub proof fn lemma_strict_mode_failures_are_fatal(config: TufConfig, failure: VerificationFailure)
    requires
        config.mode == TufMode::On,
        !config.ignore_failures,
        config.ignore_expiry_after is None,
    ensures
        tolerate_spec(config, failure) == Err::<Verification, VerificationFailure>(failure),
{
}

/// Tolerating a failure never claims that anything was verified.
pub proof fn lemma_tolerated_failure_is_never_verified(
    config: TufConfig,
    failure: VerificationFailure,
)
    ensures
        tolerate_spec(config, failure) != Ok::<Verification, VerificationFailure>(
            Verification::Verified,
        ),
{
}

/// An earlier `RUSTUP_TUF_IGNOREDATE` ignores at least the expiries that a
/// later one ignores.
pub proof fn lemma_earlier_ignore_date_ignores_more(
    expired: Seq<UtcInstant>,
    earlier: UtcInstant,
    later: UtcInstant,
)
    requires
        !is_after(earlier, later),
        expired_after(expired, later),
    ensures
        expired_after(expired, earlier),
{
    let i = choose|i: int| 0 <= i < expired.len() && is_after(#[trigger] expired[i], later);
    assert(is_after(expired[i], earlier));
}

/// An unverified read always tries the plain path last, after one
/// hash-prefixed path per digest.
pub proof fn lemma_plain_path_is_tried_last(
    path: Seq<char>,
    consistent_snapshot: bool,
    digests: Option<Seq<Seq<u8>>>,
)
    ensures
        candidate_paths(path, consistent_snapshot, digests).len() >= 1,
        candidate_paths(path, consistent_snapshot, digests).last() == path,
        candidate_paths(path, consistent_snapshot, digests).len() == match digests {
            Some(ds) if consistent_snapshot => ds.len() + 1,
            _ => 1,
        },
{
}

} // verus!

verus! {

/// The text of a repository error.
pub open spec fn tuf_error_text(e: TufError) -> Seq<char> {
    match e {
        TufError::InvalidTargetPath { reason, .. } => "illegal argument: "@ + reason@,
        TufError::InvalidUrl { url } => "failed to parse url: "@ + url@,
        TufError::InvalidFileUrl { url } => "invalid TUF file url '"@ + url@ + "'"@,
        TufError::UnsupportedScheme { scheme, url } => "unsupported TUF repository scheme '"@
            + scheme@ + "' in '"@ + url@ + "'"@,
        TufError::NotABaseUrl { url } => "cannot be a base url: "@ + url@,
    }
}

impl TufError {
    /// The error as a message for the user.
    pub fn message(&self) -> (m: String)
        ensures
            m@ == tuf_error_text(*self),
    {
        match self {
            TufError::InvalidTargetPath { reason, .. } => concat2("illegal argument: ", reason.as_str()),
            TufError::InvalidUrl { url } => concat2("failed to parse url: ", url.as_str()),
            TufError::InvalidFileUrl { url } => {
                let mut m = concat2("invalid TUF file url '", url.as_str());
                m.append("'");
                m
            },
            TufError::UnsupportedScheme { scheme, url } => {
                let mut m = concat2("unsupported TUF repository scheme '", scheme.as_str());
                m.append("' in '");
                m.append(url.as_str());
                m.append("'");
                m
            },
            TufError::NotABaseUrl { url } => concat2("cannot be a base url: ", url.as_str()),
        }
    }
}

} // verus!

verus! {

/// After reading candidate `index` of `count` without verification failed
/// with `failure`: the next candidate to try, or, after the last one, the
/// failure of that last read.
pub fn next_candidate<E>(index: usize, count: usize, failure: E) -> (r: Result<usize, E>)
    requires
        index < count,
    ensures
        index + 1 < count ==> r == Ok::<usize, E>((index + 1) as usize),
        index + 1 >= count ==> r == Err::<usize, E>(failure),
{
    if index + 1 < count {
        Ok(index + 1)
    } else {
        Err(failure)
    }
}

} // verus!

verus! {

/// `RUSTUP_TUF_IGNOREDATE` excuses nothing but expiry: in `on` mode without
/// `RUSTUP_TUF_IGNORE`, a failure none of whose expired metadata expired
/// after the ignore date (or any failure, where no ignore date is set) is
/// fatal and handed back unchanged, whatever else it reports.
pub proof fn lemma_ignore_date_excuses_only_later_expiry(
    config: TufConfig,
    failure: VerificationFailure,
)
    requires
        config.mode == TufMode::On,
        !config.ignore_failures,
        forall|i: int|
            0 <= i < failure.expired@.len() ==> match config.ignore_expiry_after {
                Some(after) => !is_after(#[trigger] failure.expired@[i], after),
                None => true,
            },
    ensures
        tolerate_spec(config, failure) == Err::<Verification, VerificationFailure>(failure),
{
    match config.ignore_expiry_after {
        Some(after) => {
            if expired_after(failure.expired@, after) {
                let i = choose|i: int|
                    0 <= i < failure.expired@.len() && is_after(
                        #[trigger] failure.expired@[i],
                        after,
                    );
                assert(!is_after(failure.expired@[i], after));
            }
        },
        None => {},
    }
}

/// In `on` mode, a failure that reports metadata which expired after the
/// ignore date is tolerated.
pub proof fn lemma_ignore_date_excuses_later_expiry(
    config: TufConfig,
    failure: VerificationFailure,
    i: int,
)
    requires
        config.mode == TufMode::On,
        config.ignore_expiry_after matches Some(after) && 0 <= i < failure.expired@.len()
            && is_after(failure.expired@[i], after),
    ensures
        tolerate_spec(config, failure) == Ok::<Verification, VerificationFailure>(
            Verification::Skipped,
        ),
{
    let after = config.ignore_expiry_after->0;
    assert(is_after(failure.expired@[i], after));
    assert(expired_after(failure.expired@, after));
}

/// A path is its directory part followed by its file name; the file name
/// holds no `/`, and the directory part is empty or ends with `/`.
pub proof fn lemma_split_file_name(path: Seq<char>)
    ensures
        split_file_name(path).0 + split_file_name(path).1 == path,
        forall|j: int|
            0 <= j < split_file_name(path).1.len() ==> #[trigger] split_file_name(path).1[j]
                != '/',
        split_file_name(path).0.len() == 0 || split_file_name(path).0.last() == '/',
    decreases path.len(),
{
    if path.len() > 0 && path.last() != '/' {
        lemma_split_file_name(path.drop_last());
        let (dir, file) = split_file_name(path.drop_last());
        assert(dir + file.push(path.last()) =~= (dir + file).push(path.last()));
        assert(path.drop_last().push(path.last()) =~= path);
    } else if path.len() == 0 {
        assert(seq![] + seq![] =~= path);
    } else {
        assert(path + seq![] =~= path);
    }
}

/// In a consistent snapshot, the unverified read tries, for each digest in
/// turn, the target path with the digest's lower-case hex (two digits per
/// byte, whatever the digest's length) and a `.` put in front of its file
/// name; such a path is never the plain path.
pub proof fn lemma_candidate_is_hash_prefixed(path: Seq<char>, ds: Seq<Seq<u8>>, i: int)
    requires
        0 <= i < ds.len(),
    ensures
        ({
            let (dir, file) = split_file_name(path);
            &&& path == dir + file
            &&& forall|j: int| 0 <= j < file.len() ==> #[trigger] file[j] != '/'
            &&& candidate_paths(path, true, Some(ds))[i] == dir + hex_lower(ds[i]) + seq!['.']
                + file
        }),
        candidate_paths(path, true, Some(ds))[i].len() == path.len() + 2 * ds[i].len() + 1,
        candidate_paths(path, true, Some(ds))[i] != path,
{
    lemma_split_file_name(path);
    crate::manifest::lemma_hex_lower_len(ds[i]);
    let c = candidate_paths(path, true, Some(ds))[i];
    assert(c.len() == path.len() + 2 * ds[i].len() + 1);
}

} // verus!
