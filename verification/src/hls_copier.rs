//! The run that mirrors a stream, as a machine of requests and replies.
//!
//! The machine decides; its driver fetches and writes. Each call of
//! `HlsCopier::copy_hls` takes the reply to the last request and hands out the
//! next request, until the run has finished or failed. The first failure ends
//! the run.

use crate::error::{HlsError, HlsErrorView};
use crate::playlist::{is_master, media_references, rewritten, variant_references, Playlist};
use crate::resolver::{local_filename, local_name, parse_absolute, resolve_url, resolved, url_parse};
use std::path::PathBuf;
use vstd::prelude::*;

verus! {

/// The file name of a source playlist whose address holds none.
pub open spec fn default_name() -> Seq<char> {
    "playlist.m3u8"@
}

/// The text of the failure for a reply that does not answer the request.
pub open spec fn unexpected_reply() -> Seq<char> {
    "the reply does not answer the request"@
}

/// The text of the failure for a batch with another number of outcomes than
/// segments.
pub open spec fn uneven_batch() -> Seq<char> {
    "the outcomes do not match the segments"@
}

/// A segment to fetch and the file to store it in.
#[derive(Debug)]
pub struct Target {
    /// The absolute URL of the segment.
    pub url: String,
    /// The name of its file in the destination directory.
    pub filename: String,
}

/// A target with its texts as sequences of characters.
pub struct TargetView {
    pub url: Seq<char>,
    pub filename: Seq<char>,
}

impl View for Target {
    type V = TargetView;

    open spec fn view(&self) -> TargetView {
        TargetView { url: self.url@, filename: self.filename@ }
    }
}

/// What the driver is asked to do next. Every request but the last two is
/// answered by one reply: the one named with it, or `Reply::Failed`.
#[derive(Debug)]
pub enum Request {
    /// Create the destination directory, with the directories above it.
    /// Answered by `Reply::Done`.
    CreateDirectory,
    /// Fetch the text at this address. Answered by `Reply::Text`.
    FetchPlaylist { url: String },
    /// Write the text to this file of the destination directory. Answered by
    /// `Reply::Done`.
    WriteFile { filename: String, content: String },
    /// Fetch all the segments at once and store each in its file. Answered by
    /// `Reply::Downloaded`, with one outcome for each target.
    DownloadSegments { targets: Vec<Target> },
    /// Nothing: the run has succeeded.
    Finished,
    /// Nothing: the run has failed.
    Failed { error: HlsError },
}

/// A request over sequences of characters.
pub enum RequestView {
    CreateDirectory,
    FetchPlaylist { url: Seq<char> },
    WriteFile { filename: Seq<char>, content: Seq<char> },
    DownloadSegments { targets: Seq<TargetView> },
    Finished,
    Failed { error: HlsErrorView },
}

/// The views of a list of targets.
pub open spec fn target_views(targets: Seq<Target>) -> Seq<TargetView> {
    targets.map_values(|target: Target| target@)
}

impl View for Request {
    type V = RequestView;

    open spec fn view(&self) -> RequestView {
        match self {
            Request::CreateDirectory => RequestView::CreateDirectory,
            Request::FetchPlaylist { url } => RequestView::FetchPlaylist { url: url@ },
            Request::WriteFile { filename, content } => RequestView::WriteFile {
                filename: filename@,
                content: content@,
            },
            Request::DownloadSegments { targets } => RequestView::DownloadSegments {
                targets: target_views(targets@),
            },
            Request::Finished => RequestView::Finished,
            Request::Failed { error } => RequestView::Failed { error: error@ },
        }
    }
}

/// What the driver reports of the last request.
#[derive(Debug)]
pub enum Reply {
    /// Nothing was asked yet: the run begins.
    Start,
    /// The directory is there, or the file is written.
    Done,
    /// The text that was fetched.
    Text { content: String },
    /// How each segment of the batch fared, in the order of the targets.
    Downloaded { outcomes: Vec<Result<(), HlsError>> },
    /// The request failed.
    Failed { error: HlsError },
}

/// A reply over sequences of characters.
pub enum ReplyView {
    Start,
    Done,
    Text { content: Seq<char> },
    Downloaded { outcomes: Seq<Result<(), HlsErrorView>> },
    Failed { error: HlsErrorView },
}

/// The view of one outcome.
pub open spec fn outcome_view(outcome: Result<(), HlsError>) -> Result<(), HlsErrorView> {
    match outcome {
        Ok(_) => Ok(()),
        Err(error) => Err(error@),
    }
}

/// The views of the outcomes of a batch.
pub open spec fn outcome_views(outcomes: Seq<Result<(), HlsError>>) -> Seq<
    Result<(), HlsErrorView>,
> {
    outcomes.map_values(|outcome: Result<(), HlsError>| outcome_view(outcome))
}

impl View for Reply {
    type V = ReplyView;

    open spec fn view(&self) -> ReplyView {
        match self {
            Reply::Start => ReplyView::Start,
            Reply::Done => ReplyView::Done,
            Reply::Text { content } => ReplyView::Text { content: content@ },
            Reply::Downloaded { outcomes } => ReplyView::Downloaded {
                outcomes: outcome_views(outcomes@),
            },
            Reply::Failed { error } => ReplyView::Failed { error: error@ },
        }
    }
}

/// Where a run stands: what was asked last.
#[derive(Debug)]
pub enum Stage {
    /// Nothing was asked yet.
    Ready,
    /// The destination directory.
    CreatingDirectory,
    /// The text of the source playlist.
    FetchingMaster,
    /// To write the source playlist as it came.
    WritingMaster { content: String, filename: String },
    /// The text of a media playlist, to be stored under `filename`.
    FetchingPlaylist { url: String, filename: String },
    /// The segments of the media playlist, `count` of them.
    Downloading { playlist: Playlist, filename: String, count: usize },
    /// To write a rewritten media playlist.
    WritingPlaylist,
    /// The run has succeeded.
    Finished,
    /// The run has failed.
    Failed { error: HlsError },
}

/// A stage over sequences of characters.
pub enum StageView {
    Ready,
    CreatingDirectory,
    FetchingMaster,
    WritingMaster { content: Seq<char>, filename: Seq<char> },
    FetchingPlaylist { url: Seq<char>, filename: Seq<char> },
    Downloading { content: Seq<char>, filename: Seq<char>, count: nat },
    WritingPlaylist,
    Finished,
    Failed { error: HlsErrorView },
}

impl View for Stage {
    type V = StageView;

    open spec fn view(&self) -> StageView {
        match self {
            Stage::Ready => StageView::Ready,
            Stage::CreatingDirectory => StageView::CreatingDirectory,
            Stage::FetchingMaster => StageView::FetchingMaster,
            Stage::WritingMaster { content, filename } => StageView::WritingMaster {
                content: content@,
                filename: filename@,
            },
            Stage::FetchingPlaylist { url, filename } => StageView::FetchingPlaylist {
                url: url@,
                filename: filename@,
            },
            Stage::Downloading { playlist, filename, count } => StageView::Downloading {
                content: playlist.content@,
                filename: filename@,
                count: *count as nat,
            },
            Stage::WritingPlaylist => StageView::WritingPlaylist,
            Stage::Finished => StageView::Finished,
            Stage::Failed { error } => StageView::Failed { error: error@ },
        }
    }
}

/// One run: from the address of a playlist to a directory.
#[derive(Debug)]
pub struct HlsCopier {
    /// The address of the source playlist, as the parsed URL writes itself.
    pub base_url: String,
    /// The directory that receives the files.
    pub dest_dir: PathBuf,
    /// The references of the master playlist that are still to be mirrored,
    /// in their order.
    pub pending: Vec<String>,
    /// Where the run stands.
    pub stage: Stage,
}

/// A run over sequences of characters.
pub struct HlsCopierView {
    pub base_url: Seq<char>,
    pub dest_dir: PathBuf,
    pub pending: Seq<Seq<char>>,
    pub stage: StageView,
}

impl View for HlsCopier {
    type V = HlsCopierView;

    open spec fn view(&self) -> HlsCopierView {
        HlsCopierView {
            base_url: self.base_url@,
            dest_dir: self.dest_dir,
            pending: self.pending.deep_view(),
            stage: self.stage@,
        }
    }
}

/// The first failure of a batch, in the order of its targets.
pub open spec fn first_failure(outcomes: Seq<Result<(), HlsErrorView>>) -> Option<HlsErrorView>
    decreases outcomes.len(),
{
    if outcomes.len() == 0 {
        None
    } else {
        match outcomes.first() {
            Err(error) => Some(error),
            Ok(_) => first_failure(outcomes.drop_first()),
        }
    }
}

/// The targets for the references of a playlist fetched from `base`, or the
/// first reference that cannot be resolved.
pub open spec fn targets_of(references: Seq<Seq<char>>, base: Seq<char>) -> Result<
    Seq<TargetView>,
    Seq<char>,
>
    decreases references.len(),
{
    if references.len() == 0 {
        Ok(Seq::<TargetView>::empty())
    } else {
        match targets_of(references.drop_last(), base) {
            Err(reference) => Err(reference),
            Ok(front) => match resolved(references.last(), base) {
                Some(url) => Ok(
                    front.push(
                        TargetView { url, filename: local_name(url, references.last()) },
                    ),
                ),
                None => Err(references.last()),
            },
        }
    }
}

impl HlsCopierView {
    /// The same run at another stage.
    pub open spec fn at(self, stage: StageView) -> HlsCopierView {
        HlsCopierView { stage, ..self }
    }

    /// The run fails: nothing more is asked.
    pub open spec fn failing(self, error: HlsErrorView) -> (HlsCopierView, RequestView) {
        (self.at(StageView::Failed { error }), RequestView::Failed { error })
    }

    /// The run turns to the next playlist that is pending, and has finished
    /// where none is.
    pub open spec fn next_playlist(self) -> (HlsCopierView, RequestView) {
        if self.pending.len() == 0 {
            (self.at(StageView::Finished), RequestView::Finished)
        } else {
            let reference = self.pending.first();
            let rest = HlsCopierView { pending: self.pending.drop_first(), ..self };
            match resolved(reference, self.base_url) {
                Some(url) => (
                    rest.at(
                        StageView::FetchingPlaylist { url, filename: local_name(url, reference) },
                    ),
                    RequestView::FetchPlaylist { url },
                ),
                None => rest.failing(HlsErrorView::InvalidReference(reference)),
            }
        }
    }

    /// The source playlist is written: a master playlist sends the run to the
    /// playlists it refers to, any other playlist is mirrored itself.
    pub open spec fn master_written(self, content: Seq<char>, filename: Seq<char>) -> (
        HlsCopierView,
        RequestView,
    ) {
        if is_master(content) {
            HlsCopierView { pending: variant_references(content), ..self }.next_playlist()
        } else {
            (
                self.at(StageView::FetchingPlaylist { url: self.base_url, filename }),
                RequestView::FetchPlaylist { url: self.base_url },
            )
        }
    }

    /// The text of a media playlist has come from `url`: its segments are
    /// asked for, all at once; without segments the rewritten text is written
    /// at once.
    pub open spec fn playlist_fetched(
        self,
        url: Seq<char>,
        filename: Seq<char>,
        content: Seq<char>,
    ) -> (HlsCopierView, RequestView) {
        if media_references(content).len() == 0 {
            (
                self.at(StageView::WritingPlaylist),
                RequestView::WriteFile { filename, content: rewritten(content) },
            )
        } else {
            match targets_of(media_references(content), url) {
                Ok(targets) => (
                    self.at(StageView::Downloading { content, filename, count: targets.len() }),
                    RequestView::DownloadSegments { targets },
                ),
                Err(reference) => self.failing(HlsErrorView::InvalidReference(reference)),
            }
        }
    }

    /// The batch has come back: one failure fails the run, with the first
    /// failure in the order of the targets; else the rewritten playlist is
    /// written.
    pub open spec fn segments_downloaded(
        self,
        content: Seq<char>,
        filename: Seq<char>,
        count: nat,
        outcomes: Seq<Result<(), HlsErrorView>>,
    ) -> (HlsCopierView, RequestView) {
        if outcomes.len() != count {
            self.failing(HlsErrorView::DownloadError(uneven_batch()))
        } else {
            match first_failure(outcomes) {
                Some(error) => self.failing(error),
                None => (
                    self.at(StageView::WritingPlaylist),
                    RequestView::WriteFile { filename, content: rewritten(content) },
                ),
            }
        }
    }

    /// The run after `reply`, and the next request. A run that has finished
    /// or failed stays as it is. A failure fails the run. A reply that does
    /// not answer the last request fails it too.
    pub open spec fn step(self, reply: ReplyView) -> (HlsCopierView, RequestView) {
        match (self.stage, reply) {
            (StageView::Finished, _) => (self, RequestView::Finished),
            (StageView::Failed { error }, _) => (self, RequestView::Failed { error }),
            (_, ReplyView::Failed { error }) => self.failing(error),
            (StageView::Ready, ReplyView::Start) => (
                self.at(StageView::CreatingDirectory),
                RequestView::CreateDirectory,
            ),
            (StageView::CreatingDirectory, ReplyView::Done) => (
                self.at(StageView::FetchingMaster),
                RequestView::FetchPlaylist { url: self.base_url },
            ),
            (StageView::FetchingMaster, ReplyView::Text { content }) => {
                let filename = local_name(self.base_url, default_name());
                (
                    self.at(StageView::WritingMaster { content, filename }),
                    RequestView::WriteFile { filename, content },
                )
            },
            (StageView::WritingMaster { content, filename }, ReplyView::Done) => {
                self.master_written(content, filename)
            },
            (StageView::FetchingPlaylist { url, filename }, ReplyView::Text { content }) => {
                self.playlist_fetched(url, filename, content)
            },
            (
                StageView::Downloading { content, filename, count },
                ReplyView::Downloaded { outcomes },
            ) => self.segments_downloaded(content, filename, count, outcomes),
            (StageView::WritingPlaylist, ReplyView::Done) => self.next_playlist(),
            _ => self.failing(HlsErrorView::DownloadError(unexpected_reply())),
        }
    }
}

/// The outcome of a batch of downloads: the first failure, in the order of
/// the targets, or success where every download succeeded.
pub fn batch_outcome(outcomes: &Vec<Result<(), HlsError>>) -> (r: Result<(), HlsError>)
    ensures
        match r {
            Ok(_) => first_failure(outcome_views(outcomes@)) is None,
            Err(error) => first_failure(outcome_views(outcomes@)) == Some(error@),
        },
{
    let ghost all = outcome_views(outcomes@);
    let mut i: usize = 0;
    assert(all.skip(0) =~= all);
    while i < outcomes.len()
        invariant
            i <= outcomes.len(),
            all == outcome_views(outcomes@),
            first_failure(all) == first_failure(all.skip(i as int)),
        decreases outcomes.len() - i,
    {
        assert(all.skip(i as int).drop_first() =~= all.skip(i + 1));
        match &outcomes[i] {
            Err(error) => {
                return Err(error.clone());
            },
            Ok(_) => {},
        }
        i += 1;
    }
    Ok(())
}

/// The targets for the segments of `playlist`, resolved against its address.
/// Fails with `InvalidReference` of the first segment that cannot be resolved.
pub fn plan_segments(playlist: &Playlist) -> (r: Result<Vec<Target>, HlsError>)
    ensures
        match targets_of(playlist.segments.deep_view(), playlist.url@) {
            Ok(targets) => r matches Ok(found) && target_views(found@) == targets,
            Err(reference) => r matches Err(error) && error@ == HlsErrorView::InvalidReference(
                reference,
            ),
        },
{
    let ghost references = playlist.segments.deep_view();
    let mut targets: Vec<Target> = Vec::new();
    let mut i: usize = 0;
    assert(target_views(targets@) =~= Seq::<TargetView>::empty());
    while i < playlist.segments.len()
        invariant
            i <= playlist.segments.len(),
            references == playlist.segments.deep_view(),
            targets_of(references.take(i as int), playlist.url@) == Ok::<
                Seq<TargetView>,
                Seq<char>,
            >(target_views(targets@)),
        decreases playlist.segments.len() - i,
    {
        let reference = &playlist.segments[i];
        proof {
            let upto = references.take(i + 1);
            assert(upto.drop_last() =~= references.take(i as int));
        }
        match resolve_url(reference.as_str(), playlist.url.as_str()) {
            Ok(url) => {
                let filename = local_filename(url.as_str(), reference.as_str());
                let ghost before = target_views(targets@);
                targets.push(Target { url, filename });
                assert(target_views(targets@) =~= before.push(targets@.last()@));
            },
            Err(error) => {
                proof {
                    lemma_failure_stays(references, playlist.url@, i + 1);
                }
                return Err(error);
            },
        }
        i += 1;
    }
    assert(references.take(playlist.segments.len() as int) =~= references);
    Ok(targets)
}

/// A reference that cannot be resolved among the first `n` is the failure of
/// the whole list.
proof fn lemma_failure_stays(references: Seq<Seq<char>>, base: Seq<char>, n: int)
    requires
        0 <= n <= references.len(),
        targets_of(references.take(n), base) is Err,
    ensures
        targets_of(references, base) == targets_of(references.take(n), base),
    decreases references.len() - n,
{
    if n < references.len() {
        let upto = references.take(n + 1);
        assert(upto.drop_last() =~= references.take(n));
        lemma_failure_stays(references, base, n + 1);
    } else {
        assert(references.take(n) =~= references);
    }
}

/// In a batch with a failure the first failure is found; a batch without one
/// has none.
pub proof fn lemma_first_failure(outcomes: Seq<Result<(), HlsErrorView>>)
    ensures
        first_failure(outcomes) is Some <==> exists|i: int|
            0 <= i < outcomes.len() && (#[trigger] outcomes[i]) is Err,
    decreases outcomes.len(),
{
    if outcomes.len() > 0 {
        lemma_first_failure(outcomes.drop_first());
        if outcomes.first() is Ok {
            if exists|i: int| 0 <= i < outcomes.len() && (#[trigger] outcomes[i]) is Err {
                let i = choose|i: int| 0 <= i < outcomes.len() && (#[trigger] outcomes[i]) is Err;
                assert(outcomes.drop_first()[i - 1] is Err);
            }
        }
    }
}

/// One failure among the downloads of a batch fails the run, however many of
/// them succeeded: the rewritten playlist is not written, and the run asks
/// for nothing more.
pub proof fn one_failure_fails_the_batch(
    run: HlsCopierView,
    outcomes: Seq<Result<(), HlsErrorView>>,
    failed: int,
)
    requires
        run.stage is Downloading,
        0 <= failed < outcomes.len(),
        outcomes[failed] is Err,
    ensures
        run.step(ReplyView::Downloaded { outcomes }).0.stage is Failed,
        run.step(ReplyView::Downloaded { outcomes }).1 is Failed,
{
    lemma_first_failure(outcomes);
}

/// A failure fails the run at whatever stage it stands, unless it has
/// finished, and the failure is what the run reports.
pub proof fn a_failure_ends_the_run(run: HlsCopierView, error: HlsErrorView)
    requires
        !(run.stage is Finished),
        !(run.stage is Failed),
    ensures
        run.step(ReplyView::Failed { error }) == run.failing(error),
{
}

/// A run that has failed stays failed and reports the same failure, whatever
/// comes after.
pub proof fn a_failed_run_stays_failed(run: HlsCopierView, reply: ReplyView)
    requires
        run.stage is Failed,
    ensures
        run.step(reply).0 == run,
        run.step(reply).1 == (RequestView::Failed { error: run.stage->Failed_error }),
{
}

impl HlsCopier {
    /// A run for the playlist at `source_url` into `dest_dir`. Fails with
    /// `InvalidUrl` where `source_url` is no absolute URL.
    pub fn new(source_url: &str, dest_dir: PathBuf) -> (r: Result<HlsCopier, HlsError>)
        ensures
            match r {
                Ok(copier) => url_parse(source_url@) == Some(copier.base_url@) && copier@ == (
                HlsCopierView {
                    base_url: copier.base_url@,
                    dest_dir,
                    pending: Seq::<Seq<char>>::empty(),
                    stage: StageView::Ready,
                }),
                Err(error) => url_parse(source_url@) is None && error@ == HlsErrorView::InvalidUrl(
                    source_url@,
                ),
            },
    {
        match parse_absolute(source_url) {
            Ok(base_url) => {
                let copier = HlsCopier {
                    base_url,
                    dest_dir,
                    pending: Vec::new(),
                    stage: Stage::Ready,
                };
                assert(copier.pending.deep_view() =~= Seq::<Seq<char>>::empty());
                Ok(copier)
            },
            Err(error) => Err(error),
        }
    }

    /// Fails the run with `error`.
    fn fail(&mut self, error: HlsError) -> (request: Request)
        ensures
            (final(self)@, request@) == old(self)@.failing(error@),
    {
        self.stage = Stage::Failed { error: error.clone() };
        Request::Failed { error }
    }

    /// Turns to the next pending playlist.
    fn next_playlist(&mut self) -> (request: Request)
        ensures
            (final(self)@, request@) == old(self)@.next_playlist(),
    {
        if self.pending.len() == 0 {
            self.stage = Stage::Finished;
            Request::Finished
        } else {
            let ghost before = self.pending.deep_view();
            let reference = self.pending.remove(0);
            assert(self.pending.deep_view() =~= before.drop_first());
            match resolve_url(reference.as_str(), self.base_url.as_str()) {
                Ok(url) => {
                    let filename = local_filename(url.as_str(), reference.as_str());
                    self.stage = Stage::FetchingPlaylist { url: url.clone(), filename };
                    Request::FetchPlaylist { url }
                },
                Err(error) => self.fail(error),
            }
        }
    }

    /// Decides what follows the writing of the source playlist.
    fn master_written(&mut self, content: String, filename: String) -> (request: Request)
        ensures
            (final(self)@, request@) == old(self)@.master_written(content@, filename@),
    {
        if Playlist::is_master_playlist(content.as_str()) {
            self.pending = Playlist::extract_all_playlists(content.as_str());
            self.next_playlist()
        } else {
            self.stage = Stage::FetchingPlaylist { url: self.base_url.clone(), filename };
            Request::FetchPlaylist { url: self.base_url.clone() }
        }
    }

    /// Reads the media playlist fetched from `url` and asks for its segments,
    /// or for its rewritten text to be written where it has none.
    fn process_playlist(&mut self, url: String, filename: String, content: String) -> (request:
        Request)
        ensures
            (final(self)@, request@) == old(self)@.playlist_fetched(url@, filename@, content@),
    {
        match Playlist::parse(content.as_str(), url.as_str()) {
            Ok(playlist) => {
                if playlist.segments.len() == 0 {
                    self.stage = Stage::WritingPlaylist;
                    Request::WriteFile { filename, content: playlist.rewrite_content() }
                } else {
                    match plan_segments(&playlist) {
                        Ok(targets) => {
                            self.stage = Stage::Downloading {
                                playlist,
                                filename,
                                count: targets.len(),
                            };
                            Request::DownloadSegments { targets }
                        },
                        Err(error) => self.fail(error),
                    }
                }
            },
            Err(error) => self.fail(error),
        }
    }

    /// Decides what follows a batch of downloads.
    fn segments_downloaded(
        &mut self,
        playlist: Playlist,
        filename: String,
        count: usize,
        outcomes: Vec<Result<(), HlsError>>,
    ) -> (request: Request)
        ensures
            (final(self)@, request@) == old(self)@.segments_downloaded(
                playlist.content@,
                filename@,
                count as nat,
                outcome_views(outcomes@),
            ),
    {
        if outcomes.len() != count {
            self.fail(HlsError::DownloadError("the outcomes do not match the segments".to_string()))
        } else {
            match batch_outcome(&outcomes) {
                Err(error) => self.fail(error),
                Ok(_) => {
                    self.stage = Stage::WritingPlaylist;
                    Request::WriteFile { filename, content: playlist.rewrite_content() }
                },
            }
        }
    }

    /// Takes the reply to the last request and hands out the next request.
    /// The run begins with `Reply::Start` and has ended with the request
    /// `Finished` or `Failed`.
    pub fn copy_hls(&mut self, reply: Reply) -> (request: Request)
        ensures
            (final(self)@, request@) == old(self)@.step(reply@),
    {
        let mut stage = Stage::Finished;
        std::mem::swap(&mut self.stage, &mut stage);
        match (stage, reply) {
            (Stage::Finished, _) => Request::Finished,
            (Stage::Failed { error }, _) => {
                let request = Request::Failed { error: error.clone() };
                self.stage = Stage::Failed { error };
                request
            },
            (_, Reply::Failed { error }) => self.fail(error),
            (Stage::Ready, Reply::Start) => {
                self.stage = Stage::CreatingDirectory;
                Request::CreateDirectory
            },
            (Stage::CreatingDirectory, Reply::Done) => {
                self.stage = Stage::FetchingMaster;
                Request::FetchPlaylist { url: self.base_url.clone() }
            },
            (Stage::FetchingMaster, Reply::Text { content }) => {
                let filename = local_filename(self.base_url.as_str(), "playlist.m3u8");
                self.stage = Stage::WritingMaster {
                    content: content.clone(),
                    filename: filename.clone(),
                };
                Request::WriteFile { filename, content }
            },
            (Stage::WritingMaster { content, filename }, Reply::Done) => {
                self.master_written(content, filename)
            },
            (Stage::FetchingPlaylist { url, filename }, Reply::Text { content }) => {
                self.process_playlist(url, filename, content)
            },
            (Stage::Downloading { playlist, filename, count }, Reply::Downloaded { outcomes }) => {
                self.segments_downloaded(playlist, filename, count, outcomes)
            },
            (Stage::WritingPlaylist, Reply::Done) => self.next_playlist(),
            _ => self.fail(
                HlsError::DownloadError("the reply does not answer the request".to_string()),
            ),
        }
    }
}

} // verus!
