//! The greeting cache: one audio file per greeting text, named by the
//! text's key, synthesized only while the file is missing.
//!
//! The directory of audio files is the only record. The cache keeps no index:
//! whether an asset exists is whatever the store says when asked.

use crate::error::PipelineError;
use crate::key::{decimal, greeting_key, key_name, key_of, lemma_decimal_injective};
use vstd::prelude::*;
use vstd::string::StringExecFns;

verus! {

/// The cached audio of one greeting text.
#[derive(Clone, Debug, PartialEq, Eq)]
pub struct GreetingAsset {
    /// The key of the text.
    pub key: u64,
    /// Where the audio lies, or will lie.
    pub file_path: String,
}

/// A [`GreetingAsset`] as a value.
pub struct AssetView {
    pub key: u64,
    pub file_path: Seq<char>,
}

impl View for GreetingAsset {
    type V = AssetView;

    open spec fn view(&self) -> AssetView {
        AssetView { key: self.key, file_path: self.file_path@ }
    }
}

/// What the synthesizer is asked to do.
#[derive(Clone, Debug, PartialEq, Eq)]
pub struct SynthesisRequest {
    /// The text to speak.
    pub text: String,
    /// The language to speak it in.
    pub locale: String,
    /// The file to write the audio to.
    pub output_path: String,
}

/// A [`SynthesisRequest`] as a value.
pub struct RequestView {
    pub text: Seq<char>,
    pub locale: Seq<char>,
    pub output_path: Seq<char>,
}

impl View for SynthesisRequest {
    type V = RequestView;

    open spec fn view(&self) -> RequestView {
        RequestView { text: self.text@, locale: self.locale@, output_path: self.output_path@ }
    }
}

/// How a synthesis ended.
#[derive(Clone, Copy, Debug, PartialEq, Eq, Structural)]
pub enum SynthesisOutcome {
    /// The audio file was written.
    Produced,
    /// The synthesizer could not be run.
    Unavailable,
    /// The synthesizer ran and left nothing usable.
    Failed,
}

/// The file of `key` in the directory `dir`: the directory, a slash, the
/// key's decimal numeral.
pub open spec fn path_of(dir: Seq<char>, key: u64) -> Seq<char> {
    dir + "/"@ + decimal(key as nat)
}

/// The asset that caches the audio of `text` in `dir`.
pub open spec fn asset_of(dir: Seq<char>, text: Seq<char>) -> AssetView {
    AssetView { key: key_of(text), file_path: path_of(dir, key_of(text)) }
}

/// The request to make for `text`, given whether its asset exists: none
/// where it does, one that writes to the asset's path where it does not.
pub open spec fn plan_of(asset: AssetView, text: Seq<char>, locale: Seq<char>, exists: bool)
    -> Option<RequestView> {
    if exists {
        None
    } else {
        Some(RequestView { text, locale, output_path: asset.file_path })
    }
}

/// What a synthesis outcome means for the announcement that waits on it.
pub open spec fn conclusion(outcome: SynthesisOutcome) -> Result<(), PipelineError> {
    match outcome {
        SynthesisOutcome::Produced => Ok(()),
        SynthesisOutcome::Unavailable => Err(PipelineError::SynthesisUnavailable),
        SynthesisOutcome::Failed => Err(PipelineError::SynthesisFailed),
    }
}

/// The outcome that three observations of a synthesizer run amount to.
pub open spec fn outcome_of(launched: bool, succeeded: bool, output_exists: bool)
    -> SynthesisOutcome {
    if !launched {
        SynthesisOutcome::Unavailable
    } else if succeeded && output_exists {
        SynthesisOutcome::Produced
    } else {
        SynthesisOutcome::Failed
    }
}

impl SynthesisOutcome {
    /// Sums up a synthesizer run: whether the synthesizer could be started,
    /// whether it reported success, and whether the audio file is there.
    pub fn classify(launched: bool, succeeded: bool, output_exists: bool) -> (outcome: Self)
        ensures
            outcome == outcome_of(launched, succeeded, output_exists),
    {
        if !launched {
            SynthesisOutcome::Unavailable
        } else if succeeded && output_exists {
            SynthesisOutcome::Produced
        } else {
            SynthesisOutcome::Failed
        }
    }

    /// Whether the announcement may go on, and the error to report where it
    /// may not.
    pub fn conclude(self) -> (result: Result<(), PipelineError>)
        ensures
            result == conclusion(self),
    {
        match self {
            SynthesisOutcome::Produced => Ok(()),
            SynthesisOutcome::Unavailable => Err(PipelineError::SynthesisUnavailable),
            SynthesisOutcome::Failed => Err(PipelineError::SynthesisFailed),
        }
    }
}

impl GreetingAsset {
    /// The asset of a known key in the directory `dir`.
    pub fn for_key(dir: &str, key: u64) -> (asset: Self)
        ensures
            asset@ == (AssetView { key, file_path: path_of(dir@, key) }),
    {
        let mut file_path = String::from_str(dir);
        file_path.append("/");
        let name = key_name(key);
        file_path.append(name.as_str());
        GreetingAsset { key, file_path }
    }

    /// The asset that caches the audio of `text` in the directory `dir`.
    pub fn locate(dir: &str, text: &str) -> (asset: Self)
        ensures
            asset@ == asset_of(dir@, text@),
    {
        GreetingAsset::for_key(dir, greeting_key(text))
    }

    /// Decides whether `text` must be synthesized, given whether this asset's
    /// file exists. A request is made exactly when it does not.
    pub fn plan(&self, text: &str, locale: &str, exists: bool) -> (request: Option<
        SynthesisRequest,
    >)
        ensures
            request is Some <==> !exists,
            request matches Some(r) ==> Some(r@) == plan_of(self@, text@, locale@, exists),
    {
        if exists {
            None
        } else {
            Some(
                SynthesisRequest {
                    text: String::from_str(text),
                    locale: String::from_str(locale),
                    output_path: self.file_path.clone(),
                },
            )
        }
    }
}

/// One request to the cache, played against a store of files.
pub struct Fetch {
    /// The files in the store afterwards.
    pub files: Set<Seq<char>>,
    /// The request that went to the synthesizer, if one did.
    pub request: Option<RequestView>,
    /// The path handed back, or why there is none.
    pub result: Result<Seq<char>, PipelineError>,
}

/// Requests the audio of `text` from a cache in `dir` whose store holds
/// `files`, with a synthesizer that would answer `outcome` if asked.
///
/// The store is asked whether the asset's file exists. If so its path is the
/// answer. If not the synthesizer is asked, and a produced file joins the
/// store.
pub open spec fn get_or_create(
    files: Set<Seq<char>>,
    dir: Seq<char>,
    locale: Seq<char>,
    text: Seq<char>,
    outcome: SynthesisOutcome,
) -> Fetch {
    let asset = asset_of(dir, text);
    match plan_of(asset, text, locale, files.contains(asset.file_path)) {
        None => Fetch { files, request: None, result: Ok(asset.file_path) },
        Some(request) => match conclusion(outcome) {
            Ok(_) => Fetch {
                files: files.insert(request.output_path),
                request: Some(request),
                result: Ok(asset.file_path),
            },
            Err(e) => Fetch { files, request: Some(request), result: Err(e) },
        },
    }
}

/// Asking twice for the same text gives the same path both times, and the
/// second request does not reach the synthesizer: once a request has
/// succeeded, the next one for that text finds the file, hands back the same
/// path and leaves the store as it is, whatever the synthesizer would say.
pub proof fn lemma_second_request_reuses(
    files: Set<Seq<char>>,
    dir: Seq<char>,
    locale: Seq<char>,
    text: Seq<char>,
    first_outcome: SynthesisOutcome,
    second_outcome: SynthesisOutcome,
)
    requires
        get_or_create(files, dir, locale, text, first_outcome).result is Ok,
    ensures
        ({
            let first = get_or_create(files, dir, locale, text, first_outcome);
            let second = get_or_create(first.files, dir, locale, text, second_outcome);
            &&& second.result == first.result
            &&& second.request is None
            &&& second.files == first.files
        }),
{
}

/// The cache only ever adds files, and at most the one it was asked for.
pub proof fn lemma_store_grows(
    files: Set<Seq<char>>,
    dir: Seq<char>,
    locale: Seq<char>,
    text: Seq<char>,
    outcome: SynthesisOutcome,
)
    ensures
        ({
            let fetch = get_or_create(files, dir, locale, text, outcome);
            &&& files.subset_of(fetch.files)
            &&& fetch.files.subset_of(files.insert(asset_of(dir, text).file_path))
            &&& fetch.result matches Ok(path) ==> fetch.files.contains(path)
        }),
{
}

/// In one directory, two keys share a path only if they are the same key.
pub proof fn lemma_path_injective(dir: Seq<char>, a: u64, b: u64)
    requires
        path_of(dir, a) == path_of(dir, b),
    ensures
        a == b,
{
    let prefix = dir + "/"@;
    let pa = path_of(dir, a);
    let pb = path_of(dir, b);
    assert(pa.subrange(prefix.len() as int, pa.len() as int) =~= decimal(a as nat));
    assert(pb.subrange(prefix.len() as int, pb.len() as int) =~= decimal(b as nat));
    lemma_decimal_injective(a as nat, b as nat);
}

} // verus!
