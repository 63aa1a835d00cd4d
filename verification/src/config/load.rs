//! Where a configuration is loaded from, and what takes its place when it can't
//! be loaded.
//!
//! Paths are the bytes that name a file.

use vstd::prelude::*;
use vstd::utf8::{codepoint_width_1, is_leading_byte_width_1, pop_first_scalar, valid_utf8};
use crate::text::is_utf8;

verus! {

/// Where to look for the configuration.
#[derive(Debug)]
pub enum ConfigPath {
    /// Only this file, which is never created.
    Explicit(Vec<u8>),
    /// The file of the user, else that of the system, else a new file of the
    /// user.
    Regular { user_path: Vec<u8>, system_path: Vec<u8> },
}

/// Which configuration is in effect.
#[derive(Debug, Clone, Copy, PartialEq, Eq, Structural)]
pub enum ConfigSource {
    /// The file of the user or of the system.
    User,
    /// The copy of the last one that could be loaded.
    LastGood,
    /// The one that is built in.
    BuiltinDefaults,
}

/// A configuration or the reason why there is none, and the files that it took
/// in.
#[derive(Debug)]
pub struct ConfigParseResult<C, E> {
    pub config: Result<C, E>,
    pub includes: Vec<Vec<u8>>,
}

/// What came of loading a configuration.
#[derive(Debug)]
pub struct LoadOutcome<C, E> {
    pub config: C,
    pub source: ConfigSource,
    /// Why the configuration of the user isn't in effect.
    pub user_load_error: Option<E>,
    /// The file that was created for the user.
    pub created_path: Option<Vec<u8>>,
    /// The files that the configuration of the user took in. There are none when
    /// another one is in effect in its place.
    pub includes: Vec<Vec<u8>>,
}

/// What the name of a copy of a configuration ends in: `.last-good`.
pub open spec fn last_good_suffix() -> Seq<u8> {
    seq![46u8, 108u8, 97u8, 115u8, 116u8, 45u8, 103u8, 111u8, 111u8, 100u8]
}

/// The file name of a copy whose own name isn't text: `config.kdl.last-good`.
pub open spec fn default_copy_name() -> Seq<u8> {
    seq![99u8, 111u8, 110u8, 102u8, 105u8, 103u8, 46u8, 107u8, 100u8, 108u8] + last_good_suffix()
}

/// What the name of an unfinished copy ends in: `.tmp`.
pub open spec fn temp_suffix() -> Seq<u8> {
    seq![46u8, 116u8, 109u8, 112u8]
}

fn push_last_good(path: &mut Vec<u8>)
    ensures
        final(path)@ == old(path)@ + last_good_suffix(),
{
    let suffix: Vec<u8> = vec![46, 108, 97, 115, 116, 45, 103, 111, 111, 100];
    let mut suffix = suffix;
    assert(suffix@ =~= last_good_suffix());
    path.append(&mut suffix);
}

fn copy_bytes(bytes: &[u8]) -> (r: Vec<u8>)
    ensures
        r@ == bytes@,
{
    let mut r: Vec<u8> = Vec::new();
    r.extend_from_slice(bytes);
    assert(r@ =~= bytes@);
    r
}

/// The copy of the last configuration that could be loaded: it is next to the
/// file of the user.
pub fn snapshot_path_for(user_path: &[u8]) -> (r: Vec<u8>)
    ensures
        r@ == user_path@ + last_good_suffix(),
{
    let mut r = copy_bytes(user_path);
    push_last_good(&mut r);
    r
}

/// Where the file name in the first `n` bytes of a path begins: behind the last
/// slash.
pub open spec fn name_start(path: Seq<u8>, n: int) -> int
    decreases n,
{
    if n <= 0 {
        0
    } else if path[n - 1] == 47 {
        n
    } else {
        name_start(path, n - 1)
    }
}

/// One step of saving a copy.
#[derive(Debug)]
pub enum SnapshotStep {
    /// Remove what an interrupted save left behind, if anything.
    RemoveStale(Vec<u8>),
    /// Copy a file.
    Copy { from: Vec<u8>, to: Vec<u8> },
    /// Put a file in the place of another at once.
    Rename { from: Vec<u8>, to: Vec<u8> },
}

/// The file that a copy is written to before it takes its place.
pub open spec fn temp_path(snapshot: Seq<u8>) -> Seq<u8> {
    let start = name_start(snapshot, snapshot.len() as int);
    let name = if valid_utf8(snapshot.skip(start)) {
        snapshot.skip(start)
    } else {
        default_copy_name()
    };
    snapshot.take(start) + seq![46u8] + name + temp_suffix()
}

/// Whether these are the steps of saving a copy of a file.
pub open spec fn saves_copy(source: Seq<u8>, steps: Seq<SnapshotStep>) -> bool {
    let snapshot = source + last_good_suffix();
    let temp = temp_path(snapshot);
    &&& steps.len() == 3
    &&& steps[0] matches SnapshotStep::RemoveStale(stale) && stale@ == temp
    &&& steps[1] matches SnapshotStep::Copy { from, to } && from@ == source && to@ == temp
    &&& steps[2] matches SnapshotStep::Rename { from, to } && from@ == temp && to@ == snapshot
}

/// How to save a copy of a configuration that could be loaded, so that a crash
/// in between leaves either the old copy or the new one. The steps are taken in
/// order until one of the last two fails.
pub fn save_last_good(source: &[u8]) -> (r: Vec<SnapshotStep>)
    ensures
        saves_copy(source@, r@),
{
    let snapshot = snapshot_path_for(source);
    let n: usize = snapshot.len();
    let mut start: usize = n;
    while start > 0 && snapshot[start - 1] != 47
        invariant
            n == snapshot@.len(),
            start <= n,
            name_start(snapshot@, n as int) == name_start(snapshot@, start as int),
        decreases start,
    {
        start -= 1;
    }
    let mut temp: Vec<u8> = Vec::new();
    let mut i: usize = 0;
    while i < start
        invariant
            n == snapshot@.len(),
            i <= start <= n,
            temp@ == snapshot@.take(i as int),
        decreases start - i,
    {
        temp.push(snapshot[i]);
        assert(temp@ =~= snapshot@.take(i + 1));
        i += 1;
    }
    temp.push(46);
    let mut name: Vec<u8> = Vec::new();
    let mut k: usize = start;
    assert(name@ =~= snapshot@.subrange(start as int, start as int));
    while k < n
        invariant
            n == snapshot@.len(),
            start <= k <= n,
            name@ == snapshot@.subrange(start as int, k as int),
        decreases n - k,
    {
        name.push(snapshot[k]);
        assert(name@ =~= snapshot@.subrange(start as int, k + 1));
        k += 1;
    }
    assert(name@ =~= snapshot@.skip(start as int));
    if !is_utf8(name.as_slice()) {
        name = vec![99, 111, 110, 102, 105, 103, 46, 107, 100, 108];
        push_last_good(&mut name);
        assert(name@ =~= default_copy_name());
    }
    temp.append(&mut name);
    let mut suffix: Vec<u8> = vec![46, 116, 109, 112];
    assert(suffix@ =~= temp_suffix());
    temp.append(&mut suffix);
    assert(temp@ =~= temp_path(snapshot@));
    let stale = copy_bytes(temp.as_slice());
    let to = copy_bytes(temp.as_slice());
    let from = copy_bytes(source);
    vec![
        SnapshotStep::RemoveStale(stale),
        SnapshotStep::Copy { from, to },
        SnapshotStep::Rename { from: temp, to: snapshot },
    ]
}

/// The file to load, or what to create.
#[derive(Debug)]
pub enum ConfigChoice<'a> {
    Load(&'a Vec<u8>),
    /// Neither file exists. A new one goes to the first path.
    Missing { user_path: &'a Vec<u8>, system_path: &'a Vec<u8> },
}

/// The file to load, or what to create, given which files exist.
pub open spec fn chosen(
    path: &ConfigPath,
    user_exists: bool,
    system_exists: bool,
) -> ConfigChoice<'_> {
    match path {
        ConfigPath::Explicit(path) => ConfigChoice::Load(path),
        ConfigPath::Regular { user_path, system_path } => if user_exists {
            ConfigChoice::Load(user_path)
        } else if system_exists {
            ConfigChoice::Load(system_path)
        } else {
            ConfigChoice::Missing { user_path, system_path }
        },
    }
}

impl ConfigPath {
    /// The file that the user edits.
    pub open spec fn user(self) -> Seq<u8> {
        match self {
            ConfigPath::Explicit(path) => path@,
            ConfigPath::Regular { user_path, .. } => user_path@,
        }
    }

    pub fn user_path(&self) -> (r: Option<&Vec<u8>>)
        ensures
            r is Some,
            r->0@ == self.user(),
    {
        match self {
            ConfigPath::Explicit(path) => Some(path),
            ConfigPath::Regular { user_path, .. } => Some(user_path),
        }
    }

    /// Where the copy of the last configuration that could be loaded is.
    pub fn last_good_path(&self) -> (r: Option<Vec<u8>>)
        ensures
            r is Some,
            r->0@ == self.user() + last_good_suffix(),
    {
        match self.user_path() {
            Some(path) => Some(snapshot_path_for(path.as_slice())),
            None => None,
        }
    }

    /// Chooses the file to load, given which files exist.
    pub fn load_inner(&self, user_exists: bool, system_exists: bool) -> (r: ConfigChoice<'_>)
        ensures
            r == chosen(self, user_exists, system_exists),
    {
        match self {
            ConfigPath::Explicit(path) => ConfigChoice::Load(path),
            ConfigPath::Regular { user_path, system_path } => {
                if user_exists {
                    ConfigChoice::Load(user_path)
                } else if system_exists {
                    ConfigChoice::Load(system_path)
                } else {
                    ConfigChoice::Missing { user_path, system_path }
                }
            },
        }
    }

    /// Goes on from the outcome of loading the configuration of the user.
    ///
    /// Where that failed, the copy of the last good one is tried, and where
    /// there is none or it fails too, the built-in one is used, so that there
    /// is a configuration in any case.
    pub fn load_with_fallback<C, E>(
        &self,
        created_path: Option<Vec<u8>>,
        user: ConfigParseResult<C, E>,
    ) -> (r: Fallback<C, E>)
        ensures
            goes_on_from_user(*self, created_path, user, r),
    {
        let ConfigParseResult { config, includes } = user;
        match config {
            Ok(config) => Fallback::Done(
                LoadOutcome {
                    config,
                    source: ConfigSource::User,
                    user_load_error: None,
                    created_path,
                    includes,
                },
            ),
            Err(user_load_error) => {
                let failed = FailedLoad { user_load_error, created_path };
                match self.last_good_path() {
                    Some(snapshot) => Fallback::TrySnapshot { snapshot, failed },
                    None => {
                        assert(false);
                        Fallback::UseDefaults(failed)
                    },
                }
            },
        }
    }
}

/// Whether loading goes on like this from the configuration of the user.
pub open spec fn goes_on_from_user<C, E>(
    path: ConfigPath,
    created_path: Option<Vec<u8>>,
    user: ConfigParseResult<C, E>,
    next: Fallback<C, E>,
) -> bool {
    match user.config {
        Ok(config) => next == Fallback::Done(
            LoadOutcome::<C, E> {
                config,
                source: ConfigSource::User,
                user_load_error: None,
                created_path,
                includes: user.includes,
            },
        ),
        Err(err) => {
            &&& next matches Fallback::TrySnapshot { snapshot, failed }
            &&& snapshot@ == path.user() + last_good_suffix()
            &&& failed == (FailedLoad { user_load_error: err, created_path })
        },
    }
}

/// Whether loading goes on like this from the copy.
pub open spec fn goes_on_from_copy<C, E>(
    failed: FailedLoad<E>,
    snapshot: Option<ConfigParseResult<C, E>>,
    next: Fallback<C, E>,
) -> bool {
    match snapshot {
        Some(result) => match result.config {
            Ok(config) => {
                &&& next matches Fallback::Done(outcome)
                &&& outcome.config == config
                &&& outcome.source is LastGood
                &&& outcome.user_load_error == Some(failed.user_load_error)
                &&& outcome.created_path == failed.created_path
                &&& outcome.includes@.len() == 0
            },
            Err(_) => next == Fallback::<C, E>::UseDefaults(failed),
        },
        None => next == Fallback::<C, E>::UseDefaults(failed),
    }
}

/// Whether the configuration that is built in is in effect.
pub open spec fn ends_with_defaults<C, E>(
    failed: FailedLoad<E>,
    config: C,
    outcome: LoadOutcome<C, E>,
) -> bool {
    &&& outcome.config == config
    &&& outcome.source is BuiltinDefaults
    &&& outcome.user_load_error == Some(failed.user_load_error)
    &&& outcome.created_path == failed.created_path
    &&& outcome.includes@.len() == 0
}

/// Whether this comes of loading, given what came of each of its stages.
pub open spec fn is_loaded<C, E>(
    created_path: Option<Vec<u8>>,
    user: ConfigParseResult<C, E>,
    snapshot: Option<ConfigParseResult<C, E>>,
    defaults: C,
    outcome: LoadOutcome<C, E>,
) -> bool {
    &&& outcome.source is User <==> user.config is Ok
    &&& outcome.source is LastGood <==> user.config is Err && snapshot is Some
        && snapshot->0.config is Ok
    &&& outcome.config == (match user.config {
        Ok(config) => config,
        Err(_) => match snapshot {
            Some(result) => match result.config {
                Ok(config) => config,
                Err(_) => defaults,
            },
            None => defaults,
        },
    })
    &&& outcome.user_load_error == (match user.config {
        Ok(_) => None,
        Err(err) => Some(err),
    })
    &&& outcome.created_path == created_path
    &&& outcome.includes@ =~= (match outcome.source {
        ConfigSource::User => user.includes@,
        ConfigSource::LastGood => Seq::empty(),
        ConfigSource::BuiltinDefaults => Seq::empty(),
    })
}

/// A configuration of the user that couldn't be loaded.
#[derive(Debug)]
pub struct FailedLoad<E> {
    pub user_load_error: E,
    pub created_path: Option<Vec<u8>>,
}

/// How loading goes on.
#[derive(Debug)]
pub enum Fallback<C, E> {
    Done(LoadOutcome<C, E>),
    /// Load the copy, if it exists.
    TrySnapshot { snapshot: Vec<u8>, failed: FailedLoad<E> },
    /// Take the configuration that is built in.
    UseDefaults(FailedLoad<E>),
}

impl<E> FailedLoad<E> {
    /// Goes on from the outcome of loading the copy; `None` where there is no
    /// copy.
    pub fn with_snapshot<C>(self, snapshot: Option<ConfigParseResult<C, E>>) -> (r: Fallback<C, E>)
        ensures
            goes_on_from_copy(self, snapshot, r),
    {
        if let Some(ConfigParseResult { config, includes: _ }) = snapshot {
            if let Ok(config) = config {
                return Fallback::Done(
                    LoadOutcome {
                        config,
                        source: ConfigSource::LastGood,
                        user_load_error: Some(self.user_load_error),
                        created_path: self.created_path,
                        includes: Vec::new(),
                    },
                );
            }
        }
        Fallback::UseDefaults(self)
    }

    /// Ends with the configuration that is built in.
    pub fn with_defaults<C>(self, config: C) -> (r: LoadOutcome<C, E>)
        ensures
            ends_with_defaults(self, config, r),
    {
        LoadOutcome {
            config,
            source: ConfigSource::BuiltinDefaults,
            user_load_error: Some(self.user_load_error),
            created_path: self.created_path,
            includes: Vec::new(),
        }
    }
}

/// The whole chain at once: loads from what came of each of its stages.
pub fn load_chain<C, E>(
    path: &ConfigPath,
    created_path: Option<Vec<u8>>,
    user: ConfigParseResult<C, E>,
    snapshot: Option<ConfigParseResult<C, E>>,
    defaults: C,
) -> (r: LoadOutcome<C, E>)
    ensures
        is_loaded(created_path, user, snapshot, defaults, r),
{
    match path.load_with_fallback(created_path, user) {
        Fallback::Done(outcome) => outcome,
        Fallback::TrySnapshot { snapshot: _, failed } => {
            match failed.with_snapshot(snapshot) {
                Fallback::Done(outcome) => outcome,
                Fallback::UseDefaults(failed) => failed.with_defaults(defaults),
                Fallback::TrySnapshot { snapshot: _, failed } => failed.with_defaults(defaults),
            }
        },
        Fallback::UseDefaults(failed) => failed.with_defaults(defaults),
    }
}

/// A copy is written aside: neither the old copy nor the file itself is touched
/// before the new copy takes its place.
pub proof fn copy_is_written_aside(source: Seq<u8>)
    ensures
        ({
            let snapshot = source + last_good_suffix();
            let temp = temp_path(snapshot);
            &&& temp != snapshot
            &&& snapshot != source
            &&& temp != source
        }),
{
    let snapshot = source + last_good_suffix();
    let temp = temp_path(snapshot);
    let start = name_start(snapshot, snapshot.len() as int);
    lemma_name_start(snapshot, snapshot.len() as int);
    assert(snapshot.last() == 100u8);
    assert(temp.last() == 112u8);
    assert(snapshot.len() == source.len() + 10);
    if valid_utf8(snapshot.skip(start)) {
        assert(temp.len() == snapshot.len() + 5);
    } else if temp == source {
        let name = seq![46u8] + default_copy_name() + temp_suffix() + last_good_suffix();
        assert(snapshot.skip(start) =~= name);
        lemma_ascii_is_text(name);
    }
}

proof fn lemma_ascii_is_text(bytes: Seq<u8>)
    requires
        forall|i: int| 0 <= i < bytes.len() ==> #[trigger] bytes[i] < 128,
    ensures
        valid_utf8(bytes),
    decreases bytes.len(),
{
    if bytes.len() > 0 {
        let first = bytes[0];
        let rest = pop_first_scalar(bytes);
        assert(is_leading_byte_width_1(first));
        assert(codepoint_width_1(first) < 128) by {
            assert(first < 128 ==> (first & 0x7F) < 128) by (bit_vector);
        }
        assert(rest =~= bytes.skip(1));
        lemma_ascii_is_text(rest);
    }
}

proof fn lemma_name_start(path: Seq<u8>, n: int)
    requires
        0 <= n <= path.len(),
    ensures
        0 <= name_start(path, n) <= n,
    decreases n,
{
    if n > 0 && path[n - 1] != 47 {
        lemma_name_start(path, n - 1);
    }
}

/// A file that is named explicitly is loaded whatever exists. Otherwise the file of the user
/// comes before that of the system, and a new one is made exactly if there is neither.
pub proof fn files_of_the_user_come_first(
    path: ConfigPath,
    user_exists: bool,
    system_exists: bool,
)
    ensures
        path matches ConfigPath::Explicit(file) ==> chosen(&path, user_exists, system_exists)
            matches ConfigChoice::Load(chosen_file) && *chosen_file == file,
        path matches ConfigPath::Regular { user_path, system_path } ==> {
            let choice = chosen(&path, user_exists, system_exists);
            &&& choice is Missing <==> !user_exists && !system_exists
            &&& user_exists ==> *choice->Load_0 == user_path
            &&& system_exists && !user_exists ==> *choice->Load_0 == system_path
            &&& choice is Missing ==> *choice->user_path == user_path && *choice->system_path
                == system_path
        },
{
}

/// The configuration of the user is in effect exactly if it could be loaded, the copy exactly
/// if that failed and the copy could be loaded, and else the one that is built in. The reason
/// is kept exactly if it isn't the one of the user.
pub proof fn the_best_configuration_is_in_effect<C, E>(
    created_path: Option<Vec<u8>>,
    user: ConfigParseResult<C, E>,
    snapshot: Option<ConfigParseResult<C, E>>,
    defaults: C,
    outcome: LoadOutcome<C, E>,
)
    requires
        is_loaded(created_path, user, snapshot, defaults, outcome),
    ensures
        user.config matches Ok(config) ==> {
            &&& outcome.source is User
            &&& outcome.config == config
            &&& outcome.user_load_error is None
            &&& outcome.includes@ == user.includes@
        },
        user.config matches Err(err) ==> {
            &&& !(outcome.source is User)
            &&& outcome.user_load_error == Some(err)
            &&& outcome.includes@.len() == 0
            &&& snapshot is Some && snapshot->0.config is Ok ==> outcome.source is LastGood
                && outcome.config == snapshot->0.config->Ok_0
            &&& snapshot is None || snapshot->0.config is Err ==> outcome.source
                is BuiltinDefaults && outcome.config == defaults
        },
        outcome.created_path == created_path,
{
}

/// The stages of loading, one after the other, give what loading at once gives.
pub proof fn stages_add_up<C, E>(
    path: ConfigPath,
    created_path: Option<Vec<u8>>,
    user: ConfigParseResult<C, E>,
    snapshot: Option<ConfigParseResult<C, E>>,
    defaults: C,
    first: Fallback<C, E>,
    second: Fallback<C, E>,
    outcome: LoadOutcome<C, E>,
)
    requires
        goes_on_from_user(path, created_path, user, first),
        first matches Fallback::TrySnapshot { failed, .. } ==> goes_on_from_copy(
            failed,
            snapshot,
            second,
        ),
        first matches Fallback::Done(done) ==> outcome == done,
        first is TrySnapshot && second is Done ==> outcome == second->Done_0,
        first is TrySnapshot && second is UseDefaults ==> ends_with_defaults(
            second->UseDefaults_0,
            defaults,
            outcome,
        ),
    ensures
        is_loaded(created_path, user, snapshot, defaults, outcome),
        first is Done <==> user.config is Ok,
        first matches Fallback::TrySnapshot { snapshot: file, .. } ==> file@ == path.user()
            + last_good_suffix(),
{
    if user.config is Err {
        assert(outcome.includes@ =~= Seq::empty());
    }
}

/// A copy is complete before it is in its place: what takes the place of the old copy is what
/// the file was copied to, and the file itself is only read.
pub proof fn copies_are_complete(source: Seq<u8>, steps: Seq<SnapshotStep>)
    requires
        saves_copy(source, steps),
    ensures
        steps.len() == 3,
        steps[1] matches SnapshotStep::Copy { from, to } && from@ == source && to@ != source,
        steps[2] matches SnapshotStep::Rename { from, to } && from@ == steps[1]->Copy_to@ && to@
            == source + last_good_suffix(),
        steps[0] matches SnapshotStep::RemoveStale(stale) && stale@ == steps[1]->Copy_to@,
{
    copy_is_written_aside(source);
}

/// A copy is written next to where it goes, under a name that is hidden and says that it is
/// unfinished.
pub proof fn unfinished_copies_are_hidden(snapshot: Seq<u8>)
    ensures
        ({
            let start = name_start(snapshot, snapshot.len() as int);
            let temp = temp_path(snapshot);
            &&& 0 <= start <= snapshot.len()
            &&& start > 0 ==> snapshot[start - 1] == 47
            &&& forall|i: int| start <= i < snapshot.len() ==> snapshot[i] != 47
            &&& temp.take(start) == snapshot.take(start)
            &&& temp[start] == 46
            &&& temp.skip(temp.len() - 4) == temp_suffix()
        }),
{
    let start = name_start(snapshot, snapshot.len() as int);
    let temp = temp_path(snapshot);
    lemma_name_start(snapshot, snapshot.len() as int);
    lemma_name_has_no_slash(snapshot, snapshot.len() as int);
    assert(temp.take(start) =~= snapshot.take(start));
    assert(temp.skip(temp.len() - 4) =~= temp_suffix());
}

proof fn lemma_name_has_no_slash(path: Seq<u8>, n: int)
    requires
        0 <= n <= path.len(),
    ensures
        name_start(path, n) > 0 ==> path[name_start(path, n) - 1] == 47,
        forall|i: int| name_start(path, n) <= i < n ==> path[i] != 47,
    decreases n,
{
    if n > 0 && path[n - 1] != 47 {
        lemma_name_has_no_slash(path, n - 1);
    }
}

} // verus!
