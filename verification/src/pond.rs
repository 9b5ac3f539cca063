//! The pond: where the frog's tips come from.
//!
//! A pond either keeps a batch of tips in a cache file and asks the tip service
//! for a new batch when that one is used up, or it lives on the tips that come
//! with the program. The pond decides; it reads and writes nothing itself. Its
//! caller fetches what `Pond::source` names, hands it over with
//! `Pond::supplied`, draws a tip, and writes back what `Draw::keep` holds.
//!
//! Nothing guards the cache file against a second process that uses it at the
//! same time.

use vstd::prelude::*;
use rand::Rng;
use crate::errors::ErrorKind;
use crate::private_path;
use crate::private_path::{PrivatePathBuf, PrivatePathView};
use crate::reservoir::Reservoir;
use crate::tips::Tip;

verus! {

/// The version of the cache file's layout. It is part of the file's name, so
/// that a later layout gets a file of its own.
pub const CACHE_VERSION: &'static str = "1";

/// Under whose name the program keeps its private data.
pub const PROGRAM_AUTHOR: &'static str = "FROG SYSTEMS";

/// The program's name.
pub const PROGRAM_NAME: &'static str = "frogsay";

/// How a pond gets its tips.
#[derive(Debug, PartialEq, Eq, Clone, Copy)]
pub enum ReservoirMode {
    /// From the cache file, and from the tip service once the file holds none.
    Cache,
    /// From the tips that come with the program, which never run out.
    EssentialCache,
}

/// A source of tips in one of the two modes, together with what its storage
/// held when the caller last looked.
#[derive(Debug, PartialEq, Eq)]
pub struct Pond {
    mode: ReservoirMode,
    stock: Option<Vec<Tip>>,
}

/// What a pond is: its mode, and the batch that its storage held, if that could
/// be read as a batch.
pub struct PondView {
    pub mode: ReservoirMode,
    pub stock: Option<Seq<Tip>>,
}

/// Where a pond's tips are kept.
#[derive(Debug, PartialEq, Eq)]
pub enum Source {
    /// In the file `file_name` of the private directory `directory`.
    CacheFile { directory: PrivatePathBuf, file_name: String },
    /// In the program itself.
    Bundled,
}

/// What came of fetching a pond's source.
#[derive(Debug, PartialEq, Eq)]
pub enum Supply {
    /// The private directory could not be had.
    NoDirectory(private_path::ErrorKind),
    /// The directory is there, but the cache file could not be opened or created.
    NoFile,
    /// The source was read: the batch it holds, or `None` where what it holds is
    /// no batch (an empty file, a broken one, one of another layout).
    Contents(Option<Vec<Tip>>),
}

/// A tip drawn from a pond, and what the cache file has to hold from now on.
#[derive(Debug, PartialEq, Eq)]
pub struct Draw {
    /// The tip.
    pub tip: Tip,
    /// The batch to write in place of the cache file's contents; `None` where
    /// there is nothing to write.
    pub keep: Option<Vec<Tip>>,
}

/// A draw, with the batch to keep as a sequence.
pub struct DrawView {
    pub tip: Tip,
    pub keep: Option<Seq<Tip>>,
}

impl View for Pond {
    type V = PondView;

    closed spec fn view(&self) -> PondView {
        PondView { mode: self.mode, stock: option_batch(self.stock) }
    }
}

impl View for Draw {
    type V = DrawView;

    open spec fn view(&self) -> DrawView {
        DrawView { tip: self.tip, keep: option_batch(self.keep) }
    }
}

/// The batch in `held`, if there is one, as a sequence.
pub open spec fn option_batch(held: Option<Vec<Tip>>) -> Option<Seq<Tip>> {
    match held {
        Some(batch) => Some(batch@),
        None => None,
    }
}

/// What refilling answered, with the batch as a sequence.
pub open spec fn fresh_view(fresh: Result<Vec<Tip>, ErrorKind>) -> Result<Seq<Tip>, ErrorKind> {
    match fresh {
        Ok(batch) => Ok(batch@),
        Err(e) => Err(e),
    }
}

/// The outcome of a draw, with the batch to keep as a sequence.
pub open spec fn outcome_view(r: Result<Draw, ErrorKind>) -> Result<DrawView, ErrorKind> {
    match r {
        Ok(draw) => Ok(draw@),
        Err(e) => Err(e),
    }
}

/// The tip of an outcome.
pub open spec fn tip_of(outcome: Result<DrawView, ErrorKind>) -> Result<Tip, ErrorKind> {
    match outcome {
        Ok(draw) => Ok(draw.tip),
        Err(e) => Err(e),
    }
}

/// The name of the cache file.
pub open spec fn cache_file_name() -> Seq<char> {
    "cache-"@ + CACHE_VERSION@ + ".json"@
}

/// The private directory of the cache file.
pub open spec fn cache_directory() -> PrivatePathView {
    PrivatePathView { author: PROGRAM_AUTHOR@, app_name: PROGRAM_NAME@, subpath: seq!["cache"@] }
}

/// Whether a pond in state `pond` has to ask for fresh tips before it can hand
/// one out: it is cached, and its file held no batch or an empty one.
pub open spec fn wants_fill(pond: PondView) -> bool {
    pond.mode == ReservoirMode::Cache && !(pond.stock matches Some(batch) && batch.len() > 0)
}

/// Taking the last tip of `batch`: that tip and the rest to keep, or `NoTips`
/// where the batch holds none.
pub open spec fn popped(batch: Seq<Tip>) -> Result<DrawView, ErrorKind> {
    if batch.len() == 0 {
        Err(ErrorKind::NoTips)
    } else {
        Ok(DrawView { tip: batch.last(), keep: Some(batch.drop_last()) })
    }
}

/// The outcome of a draw that had to refill, where refilling answered `fresh`:
/// its failure, or the last tip of its batch.
pub open spec fn refilled(fresh: Result<Seq<Tip>, ErrorKind>) -> Result<DrawView, ErrorKind> {
    match fresh {
        Ok(batch) => popped(batch),
        Err(e) => Err(e),
    }
}

/// The outcome of a draw from a cached pond whose file held `stock`, where
/// refilling, if it is asked, answers `fresh`.
pub open spec fn drawn_cached(stock: Option<Seq<Tip>>, fresh: Result<Seq<Tip>, ErrorKind>) -> Result<
    DrawView,
    ErrorKind,
> {
    if wants_fill(PondView { mode: ReservoirMode::Cache, stock }) {
        refilled(fresh)
    } else {
        popped(stock.unwrap())
    }
}

/// Whether `outcome` may come of picking from the bundled tips `stock`: any tip
/// of them, with nothing to keep; `NoTips` where they are none; and
/// `NoEssentialTips` where they could not be read.
pub open spec fn picked(stock: Option<Seq<Tip>>, outcome: Result<DrawView, ErrorKind>) -> bool {
    match stock {
        None => outcome == Err::<DrawView, ErrorKind>(ErrorKind::NoEssentialTips),
        Some(pool) => if pool.len() == 0 {
            outcome == Err::<DrawView, ErrorKind>(ErrorKind::NoTips)
        } else {
            outcome matches Ok(draw) && draw.keep is None && pool.contains(draw.tip)
        },
    }
}

/// Whether `choice` may come of choosing among `pool`: nothing where the pool
/// is empty, and one of its tips otherwise.
pub open spec fn chosen_from(pool: Seq<Tip>, choice: Option<&Tip>) -> bool {
    if pool.len() == 0 {
        choice is None
    } else {
        choice matches Some(tip) && pool.contains(*tip)
    }
}

/// Calls `rand::Rng::choose` on the generator of the current thread
/// (`rand::thread_rng`). By its source it returns `None` for an empty slice and
/// otherwise a reference to the element at an index below the length, which the
/// generator draws. Which element comes is not said: it differs from call to
/// call. The generator panics where the host has no entropy at all.
#[verifier::external_body]
fn choose_tip<'a>(tips: &'a Vec<Tip>) -> (r: Option<&'a Tip>)
    ensures
        chosen_from(tips@, r),
{
    rand::thread_rng().choose(tips)
}

impl Pond {
    /// A pond that keeps its tips in the cache file.
    pub fn with_cache() -> (r: Pond)
        ensures
            r@ == (PondView { mode: ReservoirMode::Cache, stock: None }),
    {
        Pond { mode: ReservoirMode::Cache, stock: None }
    }

    /// A pond that lives on the tips that come with the program.
    pub fn with_essential_tips() -> (r: Pond)
        ensures
            r@ == (PondView { mode: ReservoirMode::EssentialCache, stock: None }),
    {
        Pond { mode: ReservoirMode::EssentialCache, stock: None }
    }

    /// The pond's mode.
    pub fn mode(&self) -> (r: ReservoirMode)
        ensures
            r == self@.mode,
    {
        self.mode
    }

    /// The batch that the pond's storage held, if it held one.
    pub fn stock(&self) -> (r: &Option<Vec<Tip>>)
        ensures
            option_batch(*r) == self@.stock,
    {
        &self.stock
    }

    /// Where the pond's tips are kept: for a cached pond the file
    /// `cache-1.json` in the directory `cache` of the program's private
    /// directory, for the other the program itself.
    pub fn source(&self) -> (r: Source)
        ensures
            self@.mode == ReservoirMode::Cache ==> (r matches Source::CacheFile {
                directory,
                file_name,
            } && directory@ == cache_directory() && file_name@ == cache_file_name()),
            self@.mode == ReservoirMode::EssentialCache ==> r is Bundled,
    {
        match self.mode {
            ReservoirMode::Cache => {
                let mut directory = private_path::with_author_and_app(PROGRAM_AUTHOR, PROGRAM_NAME);
                directory.push("cache");
                let file_name = "cache-".to_owned().concat(CACHE_VERSION).concat(".json");
                Source::CacheFile { directory, file_name }
            },
            ReservoirMode::EssentialCache => Source::Bundled,
        }
    }

    /// A pond of the same mode once its source was fetched. Where the source was
    /// read, that pond holds what was found in it. Where it could not even be
    /// reached, the run ends: a missing directory with the reason for it, a
    /// missing file with `CacheNotCreated`.
    pub fn supplied(&self, supply: Supply) -> (r: Result<Pond, ErrorKind>)
        ensures
            match supply {
                Supply::NoDirectory(reason) => r == Err::<Pond, ErrorKind>(
                    ErrorKind::PrivatePath(reason),
                ),
                Supply::NoFile => r == Err::<Pond, ErrorKind>(ErrorKind::CacheNotCreated),
                Supply::Contents(held) => r matches Ok(pond) && pond@ == (PondView {
                    mode: self@.mode,
                    stock: option_batch(held),
                }),
            },
    {
        match supply {
            Supply::NoDirectory(reason) => Err(ErrorKind::PrivatePath(reason)),
            Supply::NoFile => Err(ErrorKind::CacheNotCreated),
            Supply::Contents(held) => Ok(Pond { mode: self.mode, stock: held }),
        }
    }

    /// Whether a draw will ask for fresh tips.
    pub fn needs_fill(&self) -> (r: bool)
        ensures
            r == wants_fill(self@),
    {
        match self.mode {
            ReservoirMode::Cache => match &self.stock {
                Some(batch) => batch.len() == 0,
                None => true,
            },
            ReservoirMode::EssentialCache => false,
        }
    }

    /// Takes the last tip of `batch`. The rest is to be kept. A batch that holds
    /// no tip gives `NoTips`, and nothing to keep.
    pub fn pop(batch: Vec<Tip>) -> (r: Result<Draw, ErrorKind>)
        ensures
            outcome_view(r) == popped(batch@),
    {
        let mut rest = batch;
        match rest.pop() {
            Some(tip) => Ok(Draw { tip, keep: Some(rest) }),
            None => Err(ErrorKind::NoTips),
        }
    }

    /// The outcome of a draw that asked for fresh tips and was answered `fresh`:
    /// the failure where refilling failed, else the last tip of the fresh batch
    /// with the rest to keep, and `NoTips` where the fresh batch holds none.
    pub fn refill(fresh: Result<Vec<Tip>, ErrorKind>) -> (r: Result<Draw, ErrorKind>)
        ensures
            outcome_view(r) == refilled(fresh_view(fresh)),
    {
        match fresh {
            Ok(batch) => Pond::pop(batch),
            Err(e) => Err(e),
        }
    }

    /// The outcome of picking among the bundled tips, where `choice` is what was
    /// chosen: a copy of that tip with nothing to keep, and `NoTips` where
    /// nothing was chosen.
    pub fn pick(choice: Option<&Tip>) -> (r: Result<Draw, ErrorKind>)
        ensures
            match choice {
                Some(tip) => r == Ok::<Draw, ErrorKind>(Draw { tip: *tip, keep: None }),
                None => r == Err::<Draw, ErrorKind>(ErrorKind::NoTips),
            },
    {
        match choice {
            Some(tip) => Ok(Draw { tip: tip.clone(), keep: None }),
            None => Err(ErrorKind::NoTips),
        }
    }

    /// Draws one tip.
    ///
    /// A cached pond whose file held a batch with a tip in it hands out the last
    /// tip of that batch, and `fill_fn` is not called. A cached pond whose file
    /// held no batch, or an empty one, calls `fill_fn` once and goes by its
    /// answer as `refill` says. Either way the rest of the batch is what the
    /// cache file has to hold afterwards. A failure leaves nothing to write.
    /// `drawn_cached` says all this of the outcome.
    ///
    /// A pond of bundled tips hands out any one of them, and never calls
    /// `fill_fn`. It fails with `NoEssentialTips` where the bundled tips could
    /// not be read, and with `NoTips` where they are none.
    ///
    /// `fill_fn` need be callable only where the pond asks for fresh tips, so a
    /// draw cannot call it otherwise, and it is taken as a function that its
    /// call uses up, so a draw cannot call it twice.
    pub fn draw<F>(self, fill_fn: F) -> (r: Result<Draw, ErrorKind>) where
        F: FnOnce() -> Result<Vec<Tip>, ErrorKind>,

        requires
            wants_fill(self@) ==> fill_fn.requires(()),
        ensures
            self@.mode == ReservoirMode::Cache ==> exists|fresh: Result<Vec<Tip>, ErrorKind>|
                (wants_fill(self@) ==> fill_fn.ensures((), fresh)) && outcome_view(r)
                    == drawn_cached(self@.stock, #[trigger] fresh_view(fresh)),
            self@.mode == ReservoirMode::EssentialCache ==> picked(self@.stock, outcome_view(r)),
    {
        match self.mode {
            ReservoirMode::Cache => {
                let usable = match self.stock {
                    Some(batch) => if batch.len() > 0 {
                        Some(batch)
                    } else {
                        None
                    },
                    None => None,
                };
                match usable {
                    Some(batch) => {
                        let r = Pond::pop(batch);
                        proof {
                            let unasked: Result<Vec<Tip>, ErrorKind> = Err(ErrorKind::NoTips);
                            assert(outcome_view(r) == drawn_cached(
                                self@.stock,
                                fresh_view(unasked),
                            ));
                        }
                        r
                    },
                    None => {
                        let fresh = fill_fn();
                        let ghost answer = fresh;
                        let r = Pond::refill(fresh);
                        proof {
                            assert(outcome_view(r) == drawn_cached(
                                self@.stock,
                                fresh_view(answer),
                            ));
                        }
                        r
                    },
                }
            },
            ReservoirMode::EssentialCache => match self.stock {
                Some(pool) => Pond::pick(choose_tip(&pool)),
                None => Err(ErrorKind::NoEssentialTips),
            },
        }
    }
}

impl Draw {
    /// The end of a run that drew a tip: the tip, unless there was a batch to
    /// keep and the cache file could not be `written`. Then the tip is lost, and
    /// the run fails with `CacheNotUpdated`.
    pub fn conclude(self, written: bool) -> (r: Result<Tip, ErrorKind>)
        ensures
            self.keep is Some && !written ==> r == Err::<Tip, ErrorKind>(ErrorKind::CacheNotUpdated),
            self.keep is None || written ==> r == Ok::<Tip, ErrorKind>(self.tip),
    {
        if self.keep.is_some() && !written {
            Err(ErrorKind::CacheNotUpdated)
        } else {
            Ok(self.tip)
        }
    }
}

impl Reservoir<Tip> for Pond {
    open spec fn is_drained(&self) -> bool {
        wants_fill(self@)
    }

    open spec fn yields(&self, r: Result<Tip, ErrorKind>) -> bool {
        match self@.mode {
            ReservoirMode::Cache => r == tip_of(popped(self@.stock.unwrap())),
            ReservoirMode::EssentialCache => exists|outcome: Result<DrawView, ErrorKind>|
                picked(self@.stock, outcome) && r == #[trigger] tip_of(outcome),
        }
    }

    open spec fn yields_after(&self, fresh: Result<Vec<Tip>, ErrorKind>, r: Result<
        Tip,
        ErrorKind,
    >) -> bool {
        r == tip_of(refilled(fresh_view(fresh)))
    }

    /// The tip of `draw`, for a caller that keeps no cache file.
    fn next_or_fill<F>(self, fill_fn: F) -> (r: Result<Tip, ErrorKind>) where
        F: Fn() -> Result<Vec<Tip>, ErrorKind>,
     {
        let drawn = self.draw(fill_fn);
        let ghost outcome = outcome_view(drawn);
        let r = match drawn {
            Ok(draw) => Ok(draw.tip),
            Err(e) => Err(e),
        };
        proof {
            assert(r == tip_of(outcome));
            if wants_fill(self@) {
                let fresh = choose|fresh: Result<Vec<Tip>, ErrorKind>|
                    fill_fn.ensures((), fresh) && outcome == drawn_cached(
                        self@.stock,
                        #[trigger] fresh_view(fresh),
                    );
                assert(self.yields_after(fresh, r));
            }
        }
        r
    }
}

/// A cache file that holds a batch with a tip in it decides the draw alone: the
/// tip is the last of the batch, the batch without it is what the file has to
/// hold afterwards, and no fresh tips are asked for, so that whatever refilling
/// would have answered makes no difference.
pub proof fn lemma_cached_batch_is_served(batch: Seq<Tip>, fresh: Result<Seq<Tip>, ErrorKind>)
    requires
        batch.len() > 0,
    ensures
        !wants_fill(PondView { mode: ReservoirMode::Cache, stock: Some(batch) }),
        drawn_cached(Some(batch), fresh) == Ok::<DrawView, ErrorKind>(
            DrawView { tip: batch.last(), keep: Some(batch.drop_last()) },
        ),
{
}

/// A cache file that holds an empty batch, and one that holds no batch at all,
/// are one and the same to a draw: both ask for fresh tips, and the outcome is
/// what refilling answers, as if there had been no file.
pub proof fn lemma_unusable_cache_is_no_cache(fresh: Result<Seq<Tip>, ErrorKind>)
    ensures
        wants_fill(PondView { mode: ReservoirMode::Cache, stock: Some(Seq::<Tip>::empty()) }),
        wants_fill(PondView { mode: ReservoirMode::Cache, stock: None }),
        drawn_cached(Some(Seq::<Tip>::empty()), fresh) == drawn_cached(None, fresh),
        drawn_cached(None, fresh) == refilled(fresh),
{
}

/// Where refilling answers an empty batch the draw fails with `NoTips`. The
/// failure holds no batch to keep, so nothing is written over the cache file.
pub proof fn lemma_empty_refill_fails(stock: Option<Seq<Tip>>)
    requires
        wants_fill(PondView { mode: ReservoirMode::Cache, stock }),
    ensures
        drawn_cached(stock, Ok(Seq::<Tip>::empty())) == Err::<DrawView, ErrorKind>(
            ErrorKind::NoTips,
        ),
{
}

/// A draw that succeeds on a cached pond always leaves a batch to keep, one tip
/// shorter than the batch it was taken from; a pond of bundled tips never
/// leaves one.
pub proof fn lemma_keep_follows_mode(
    stock: Option<Seq<Tip>>,
    fresh: Result<Seq<Tip>, ErrorKind>,
    outcome: Result<DrawView, ErrorKind>,
)
    ensures
        drawn_cached(stock, fresh) matches Ok(draw) ==> draw.keep is Some && {
            let source = if wants_fill(PondView { mode: ReservoirMode::Cache, stock }) {
                fresh->Ok_0
            } else {
                stock->Some_0
            };
            source == draw.keep->Some_0.push(draw.tip)
        },
        picked(stock, outcome) ==> (outcome matches Ok(draw) ==> draw.keep is None),
{
    if drawn_cached(stock, fresh) is Ok {
        let source = if wants_fill(PondView { mode: ReservoirMode::Cache, stock }) {
            fresh->Ok_0
        } else {
            stock->Some_0
        };
        assert(source =~= source.drop_last().push(source.last()));
    }
}

} // verus!
