//! Where a toolchain's channel manifest lives in the TUF repository, and what
//! is done with the manifest bytes once TUF has handed them over.

use vstd::prelude::*;
use sha2::Digest;
use crate::config::TufConfig;
use crate::text::{concat2, owned, str_equal};
use crate::time::{chrono_parse_naive_date, date_of, dated_path_text, naive_date_format, naive_date_parse};

verus! {

/// A release channel.
#[derive(Clone, Debug, PartialEq, Eq)]
pub enum Channel {
    Stable,
    Beta,
    Nightly,
    /// A version such as `1.98.1`; `pre_release` is whether the version has a
    /// pre-release part (`1.99.0-beta.2`).
    Version { name: String, pre_release: bool },
}

/// How a channel is written.
pub open spec fn channel_name(c: Channel) -> Seq<char> {
    match c {
        Channel::Stable => "stable"@,
        Channel::Beta => "beta"@,
        Channel::Nightly => "nightly"@,
        Channel::Version { name, .. } => name@,
    }
}

impl Channel {
    /// How the channel is written (`stable`, `beta`, `nightly`, or the version).
    pub fn name(&self) -> (s: String)
        ensures
            s@ == channel_name(*self),
    {
        match self {
            Channel::Stable => owned("stable"),
            Channel::Beta => owned("beta"),
            Channel::Nightly => owned("nightly"),
            Channel::Version { name, .. } => owned(name.as_str()),
        }
    }
}

/// What the manifest location depends on in a toolchain description: its
/// channel and, for an archived release, its date (`YYYY-MM-DD`).
#[derive(Clone, Debug, PartialEq, Eq)]
pub struct ToolchainDesc {
    pub channel: Channel,
    pub date: Option<String>,
}

/// Errors while locating or reading a channel manifest.
#[derive(Clone, Debug, PartialEq, Eq)]
pub enum ManifestError {
    /// The toolchain's date is not of the form `yyyy-mm-dd`; `cause` is the
    /// text of chrono's parse error.
    InvalidDate { date: String, cause: String },
    /// The manifest fetched for `target` is not UTF-8.
    NotUtf8 { target: String },
}

/// The manifest file of `channel` in the channel directory `dir`, under `root`.
pub open spec fn channel_manifest_path(root: Seq<char>, dir: Seq<char>, channel: Channel) -> Seq<char> {
    root + "/channels/"@ + dir + "/"@ + channel_name(channel) + ".toml"@
}

/// `{root}/channels/{dir}/{channel}.toml`.
pub fn channel_manifest_url(root: &str, dir: &str, channel: &Channel) -> (url: String)
    ensures
        url@ == channel_manifest_path(root@, dir@, *channel),
{
    let name = channel.name();
    let mut url = concat2(root, "/channels/");
    url.append(dir);
    url.append("/");
    url.append(name.as_str());
    url.append(".toml");
    proof {
        assert(url@ =~= channel_manifest_path(root@, dir@, *channel));
    }
    url
}

/// The manifest location of `desc` under `root`, or the date that could not
/// be read with the text of chrono's parse error.
pub open spec fn manifest_location(desc: ToolchainDesc, root: Seq<char>, staged: bool) -> Result<
    Seq<char>,
    (Seq<char>, Seq<char>),
> {
    match desc.date {
        None => if staged {
            Ok(channel_manifest_path(root, "staging"@, desc.channel))
        } else {
            match desc.channel {
                Channel::Version { pre_release, .. } => if pre_release {
                    Ok(channel_manifest_path(root, "beta"@, desc.channel))
                } else {
                    Ok(channel_manifest_path(root, "stable"@, desc.channel))
                },
                _ => Ok(channel_manifest_path(root, "current"@, desc.channel)),
            }
        },
        Some(date) => match date_of(chrono_parse_naive_date(date@, "%Y-%m-%d"@)) {
            Ok(d) => Ok(
                channel_manifest_path(root, "nightly/"@ + dated_path_text(d), desc.channel),
            ),
            Err(cause) => Err((date@, cause)),
        },
    }
}

/// Where the manifest of an undated toolchain lives under `root`: with
/// `RUSTUP_STAGED_MANIFEST` set, in `channels/staging` whatever the channel;
/// otherwise a version's in `channels/beta` or `channels/stable` by whether it
/// is a pre-release, and that of `stable`, `beta` or `nightly` in
/// `channels/current`; the file is named after the channel.
pub proof fn lemma_undated_manifest_location(channel: Channel, root: Seq<char>, staged: bool)
    ensures
        manifest_location(ToolchainDesc { channel, date: None }, root, staged) == Ok::<
            Seq<char>,
            (Seq<char>, Seq<char>),
        >(
            root + if staged {
                "/channels/staging/"@
            } else {
                match channel {
                    Channel::Version { pre_release, .. } => if pre_release {
                        "/channels/beta/"@
                    } else {
                        "/channels/stable/"@
                    },
                    _ => "/channels/current/"@,
                }
            } + channel_name(channel) + ".toml"@,
        ),
{
    reveal_strlit("/channels/");
    reveal_strlit("/");
    reveal_strlit("staging");
    reveal_strlit("beta");
    reveal_strlit("stable");
    reveal_strlit("current");
    reveal_strlit("/channels/staging/");
    reveal_strlit("/channels/beta/");
    reveal_strlit("/channels/stable/");
    reveal_strlit("/channels/current/");
    let name = channel_name(channel);
    let t = ".toml"@;
    assert(root + "/channels/"@ + "staging"@ + "/"@ + name + t =~= root + "/channels/staging/"@
        + name + t);
    assert(root + "/channels/"@ + "beta"@ + "/"@ + name + t =~= root + "/channels/beta/"@ + name
        + t);
    assert(root + "/channels/"@ + "stable"@ + "/"@ + name + t =~= root + "/channels/stable/"@
        + name + t);
    assert(root + "/channels/"@ + "current"@ + "/"@ + name + t =~= root + "/channels/current/"@
        + name + t);
}

impl ToolchainDesc {
    /// The URL of the channel manifest under `dist_root`, in the layout used
    /// for channels signed with TUF; `staged` is whether
    /// `RUSTUP_STAGED_MANIFEST` is set. A dated toolchain has no staged
    /// manifest.
    pub fn manifest_v3_url(&self, dist_root: &str, staged: bool) -> (r: Result<
        String,
        ManifestError,
    >)
        requires
            !(self.date is Some && staged),
        ensures
            match (r, manifest_location(*self, dist_root@, staged)) {
                (Ok(url), Ok(expected)) => url@ == expected,
                (Err(ManifestError::InvalidDate { date, cause }), Err((d, c))) => date@ == d
                    && cause@ == c,
                _ => false,
            },
    {
        match &self.date {
            None => {
                if staged {
                    Ok(channel_manifest_url(dist_root, "staging", &self.channel))
                } else {
                    match &self.channel {
                        Channel::Version { pre_release, .. } => {
                            if *pre_release {
                                Ok(channel_manifest_url(dist_root, "beta", &self.channel))
                            } else {
                                Ok(channel_manifest_url(dist_root, "stable", &self.channel))
                            }
                        },
                        _ => Ok(channel_manifest_url(dist_root, "current", &self.channel)),
                    }
                }
            },
            Some(date) => match naive_date_parse(date.as_str(), "%Y-%m-%d") {
                Ok(d) => {
                    let path = naive_date_format(d, "%Y/%m-%d");
                    match path {
                        Some(path) => {
                            let dir = concat2("nightly/", path.as_str());
                            Ok(channel_manifest_url(dist_root, dir.as_str(), &self.channel))
                        },
                        None => Err(
                            ManifestError::InvalidDate { date: owned(date.as_str()), cause: String::new() },
                        ),
                    }
                },
                Err(cause) => Err(ManifestError::InvalidDate { date: owned(date.as_str()), cause }),
            },
        }
    }
}

} // verus!

verus! {

/// The TUF dist location: `RUSTUP_TUF_DIST_SERVER` where it is set, the dist
/// root otherwise.
pub fn tuf_location(config: &TufConfig, dist_root_url: &str) -> (location: String)
    ensures
        location@ == match config.dist_server {
            Some(server) => server@,
            None => dist_root_url@,
        },
{
    match &config.dist_server {
        Some(server) => owned(server.as_str()),
        None => owned(dist_root_url),
    }
}

/// `s` without the `/` characters it starts with.
pub open spec fn trim_leading_slashes(s: Seq<char>) -> Seq<char>
    decreases s.len(),
{
    if s.len() > 0 && s[0] == '/' {
        trim_leading_slashes(s.drop_first())
    } else {
        s
    }
}

/// Removes the `/` characters that `s` starts with.
pub fn trim_start_slashes(s: &str) -> (r: String)
    ensures
        r@ == trim_leading_slashes(s@),
{
    let n = s.unicode_len();
    let mut i: usize = 0;
    proof {
        assert(s@.subrange(0, n as int) =~= s@);
    }
    while i < n && s.get_char(i) == '/'
        invariant
            n == s@.len(),
            i <= n,
            trim_leading_slashes(s@) == trim_leading_slashes(s@.subrange(i as int, n as int)),
        decreases n - i,
    {
        proof {
            assert(s@.subrange(i as int, n as int).drop_first() =~= s@.subrange(i + 1, n as int));
        }
        i = i + 1;
    }
    proof {
        if i < n {
            assert(s@.subrange(i as int, n as int)[0] == s@[i as int]);
        }
    }
    owned(s.substring_char(i, n))
}

impl ToolchainDesc {
    /// The TUF target path of the channel manifest: its manifest URL under an
    /// empty dist root, without the leading `/`.
    pub fn manifest_target(&self, staged: bool) -> (r: Result<String, ManifestError>)
        requires
            !(self.date is Some && staged),
        ensures
            match (r, manifest_location(*self, ""@, staged)) {
                (Ok(target), Ok(url)) => target@ == trim_leading_slashes(url),
                (Err(ManifestError::InvalidDate { date, cause }), Err((d, c))) => date@ == d
                    && cause@ == c,
                _ => false,
            },
    {
        match self.manifest_v3_url("", staged) {
            Ok(url) => Ok(trim_start_slashes(url.as_str())),
            Err(e) => Err(e),
        }
    }
}

} // verus!

verus! {

/// Number of hex characters of the manifest's SHA-256 that are kept as its
/// update hash.
pub open spec fn update_hash_len() -> nat {
    20
}

/// The SHA-256 digest of `data`, as the `sha2` crate computes it.
pub uninterp spec fn sha256_digest(data: Seq<u8>) -> Seq<u8>;

/// Calls `sha2::Sha256::digest`; claims that the digest is a function of the
/// data and is 32 bytes long (the output size of SHA-256).
#[verifier::external_body]
fn sha256(data: &[u8]) -> (digest: Vec<u8>)
    ensures
        digest@ == sha256_digest(data@),
        digest@.len() == 32,
{
    sha2::Sha256::digest(data).to_vec()
}

/// The lower-case hex digit of `n` (below 16).
pub open spec fn hex_digit(n: nat) -> char {
    if n < 10 {
        ((48 + n) as u32) as char
    } else {
        ((87 + n) as u32) as char
    }
}

/// Lower-case hex encoding: two digits per byte, the high half first.
pub open spec fn hex_lower(bytes: Seq<u8>) -> Seq<char>
    decreases bytes.len(),
{
    if bytes.len() == 0 {
        seq![]
    } else {
        hex_lower(bytes.drop_last()) + seq![
            hex_digit((bytes.last() / 16) as nat),
            hex_digit((bytes.last() % 16) as nat),
        ]
    }
}

/// The hex encoding of `bytes` has two characters per byte.
pub proof fn lemma_hex_lower_len(bytes: Seq<u8>)
    ensures
        hex_lower(bytes).len() == 2 * bytes.len(),
    decreases bytes.len(),
{
    if bytes.len() > 0 {
        lemma_hex_lower_len(bytes.drop_last());
    }
}

/// Calls `faster_hex::hex_string`, which writes each byte as two lower-case
/// hex digits, the high half first (its fallback table is `0123456789abcdef`).
#[verifier::external_body]
fn hex_string(bytes: &[u8]) -> (s: String)
    requires
        bytes@.len() <= usize::MAX / 2,
    ensures
        s@ == hex_lower(bytes@),
{
    faster_hex::hex_string(bytes)
}

/// Byte `k` of `bytes` is written as characters `2k` and `2k + 1` of its
/// hex encoding, the high half first.
pub proof fn lemma_hex_lower_digits(bytes: Seq<u8>, k: int)
    requires
        0 <= k < bytes.len(),
    ensures
        hex_lower(bytes)[2 * k] == hex_digit((bytes[k] / 16) as nat),
        hex_lower(bytes)[2 * k + 1] == hex_digit((bytes[k] % 16) as nat),
    decreases bytes.len(),
{
    lemma_hex_lower_len(bytes.drop_last());
    if k < bytes.len() - 1 {
        lemma_hex_lower_digits(bytes.drop_last(), k);
    }
}

/// The update hash is made of the first ten bytes of the SHA-256 digest of
/// the whole manifest, every byte of it included, each written as two
/// lower-case hex digits, the high half first.
pub proof fn lemma_update_hash_digits(bytes: Seq<u8>)
    requires
        sha256_digest(bytes).len() == 32,
    ensures
        manifest_update_hash(bytes).len() == 20,
        forall|k: int|
            0 <= k < 10 ==> manifest_update_hash(bytes)[2 * k] == hex_digit(
                (sha256_digest(bytes)[k] / 16) as nat,
            ) && manifest_update_hash(bytes)[2 * k + 1] == hex_digit(
                (sha256_digest(bytes)[k] % 16) as nat,
            ),
{
    let d = sha256_digest(bytes);
    lemma_hex_lower_len(d);
    assert forall|k: int| 0 <= k < 10 implies manifest_update_hash(bytes)[2 * k] == hex_digit(
        (d[k] / 16) as nat,
    ) && manifest_update_hash(bytes)[2 * k + 1] == hex_digit((d[k] % 16) as nat) by {
        lemma_hex_lower_digits(d, k);
    }
}

/// The update hash of a channel manifest: the first 20 hex digits of its SHA-256.
pub open spec fn manifest_update_hash(bytes: Seq<u8>) -> Seq<char> {
    hex_lower(sha256_digest(bytes)).take(update_hash_len() as int)
}

/// Computes the update hash of the channel manifest `bytes`.
pub fn partial_manifest_hash(bytes: &[u8]) -> (hash: String)
    ensures
        hash@ == manifest_update_hash(bytes@),
        hash@.len() == update_hash_len(),
        forall|k: int|
            0 <= k < 10 ==> hash@[2 * k] == hex_digit((sha256_digest(bytes@)[k] / 16) as nat)
                && hash@[2 * k + 1] == hex_digit((sha256_digest(bytes@)[k] % 16) as nat),
{
    let digest = sha256(bytes);
    let hex = hex_string(digest.as_slice());
    proof {
        lemma_hex_lower_len(digest@);
        lemma_update_hash_digits(bytes@);
    }
    owned(hex.as_str().substring_char(0, 20))
}

/// Calls `String::from_utf8`: `Some` exactly where the bytes are UTF-8, with
/// the characters they encode.
#[verifier::external_body]
fn string_from_utf8(bytes: Vec<u8>) -> (s: Option<String>)
    ensures
        s is Some <==> vstd::utf8::valid_utf8(bytes@),
        s matches Some(text) ==> text@ == vstd::utf8::decode_utf8(bytes@),
{
    String::from_utf8(bytes).ok()
}

/// A channel manifest fetched through TUF, as text, with its update hash.
#[derive(Debug, PartialEq, Eq)]
pub struct ChannelManifest {
    pub text: String,
    pub hash: String,
}

/// What becomes of the manifest `bytes` fetched for `target`, given the
/// contents of the update hash file where one was read: `Ok(None)` where
/// those contents equal the manifest's update hash (the manifest has not
/// changed), the manifest text and hash where it is UTF-8, and an error
/// otherwise.
pub fn channel_manifest(bytes: Vec<u8>, target: &str, stored_hash: Option<&str>) -> (r: Result<
    Option<ChannelManifest>,
    ManifestError,
>)
    ensures
        match stored_hash {
            Some(h) if h@ == manifest_update_hash(bytes@) => r == Ok::<
                Option<ChannelManifest>,
                ManifestError,
            >(None),
            _ => if vstd::utf8::valid_utf8(bytes@) {
                r matches Ok(Some(m)) && m.text@ == vstd::utf8::decode_utf8(bytes@) && m.hash@
                    == manifest_update_hash(bytes@) && m.hash@.len() == update_hash_len()
            } else {
                r matches Err(ManifestError::NotUtf8 { target: t }) && t@ == target@
            },
        },
{
    let hash = partial_manifest_hash(bytes.as_slice());
    match stored_hash {
        Some(h) => {
            if str_equal(h, hash.as_str()) {
                return Ok(None);
            }
        },
        None => {},
    }
    match string_from_utf8(bytes) {
        Some(text) => Ok(Some(ChannelManifest { text, hash })),
        None => Err(ManifestError::NotUtf8 { target: owned(target) }),
    }
}

} // verus!

verus! {

/// The text of a manifest error.
pub open spec fn manifest_error_text(e: ManifestError) -> Seq<char> {
    match e {
        ManifestError::InvalidDate { date, .. } => "invalid date '"@ + date@
            + "', expected yyyy-mm-dd"@,
        ManifestError::NotUtf8 { target } => "channel manifest '"@ + target@
            + "' is not valid UTF-8"@,
    }
}

impl ManifestError {
    /// The error as a message for the user.
    pub fn message(&self) -> (m: String)
        ensures
            m@ == manifest_error_text(*self),
    {
        match self {
            ManifestError::InvalidDate { date, .. } => {
                let mut m = concat2("invalid date '", date.as_str());
                m.append("', expected yyyy-mm-dd");
                m
            },
            ManifestError::NotUtf8 { target } => {
                let mut m = concat2("channel manifest '", target.as_str());
                m.append("' is not valid UTF-8");
                m
            },
        }
    }
}

} // verus!
