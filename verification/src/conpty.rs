//! The library that provides the pseudoconsole: where it is looked for, and how the
//! console is made with it.

use crate::report::texts;
use crate::status::check_hresult;
use crate::status::outcome_of;
use crate::status::WinError;
use vstd::prelude::*;

verus! {

/// The file name of the library.
pub const DLL_NAME: &'static str = "conpty.dll";

/// The environment variable that names a library to be tried before all others.
pub const OVERRIDE_VARIABLE: &'static str = "CONPTY_DLL_PATH";

/// Where WezTerm installs its copy.
pub const WEZTERM_DLL: &'static str = "C:\\Program Files\\WezTerm\\conpty.dll";

/// Where Windows Terminal's copy lies below the local application data.
pub const TERMINAL_DLL: &'static str = "\\Microsoft\\WindowsApps\\conpty.dll";

/// The path of the library beside the running program.
#[derive(Debug, PartialEq, Eq)]
pub enum Sibling {
    /// The system does not say where the program lies.
    Unknown,
    /// The path is not Unicode.
    NotUnicode,
    Path(String),
}

/// The paths that are tried, in this order: the override, the program's sibling, Windows
/// Terminal's copy and WezTerm's. An override or a sibling that cannot be had is left out,
/// and the others are tried all the same.
pub open spec fn candidate_paths(
    overriding: Option<Seq<char>>,
    sibling: Sibling,
    local_app_data: Seq<char>,
) -> Seq<Seq<char>> {
    let first = match overriding {
        Some(path) => seq![path],
        None => Seq::empty(),
    };
    let installed = seq![local_app_data + TERMINAL_DLL@, WEZTERM_DLL@];
    match sibling {
        Sibling::Unknown => first + installed,
        Sibling::NotUnicode => first + installed,
        Sibling::Path(path) => first + seq![path@] + installed,
    }
}

/// Lists the paths that are tried.
pub fn candidates(overriding: Option<&str>, sibling: &Sibling, local_app_data: &str) -> (paths: Vec<
    String,
>)
    ensures
        texts(paths@) == candidate_paths(
            (match overriding {
                Some(path) => Some(path@),
                None => None,
            }),
            *sibling,
            local_app_data@,
        ),
{
    let mut paths: Vec<String> = Vec::new();
    if let Some(path) = overriding {
        paths.push(path.to_owned());
    }
    if let Sibling::Path(path) = sibling {
        paths.push(path.clone());
    }
    let mut terminal = local_app_data.to_owned();
    terminal.append(TERMINAL_DLL);
    paths.push(terminal);
    paths.push(WEZTERM_DLL.to_owned());
    assert(texts(paths@) =~= candidate_paths(
        (match overriding {
            Some(path) => Some(path@),
            None => None,
        }),
        *sibling,
        local_app_data@,
    ));
    paths
}

/// What the search does next.
#[derive(Debug, PartialEq, Eq)]
pub enum SearchAction {
    Load { path: String },
    /// The library that was loaded last is the one to use.
    Use,
    GiveUp,
}

/// A search through a list of paths for the first that can be loaded.
#[derive(Debug, PartialEq, Eq)]
pub struct DllSearch {
    paths: Vec<String>,
    next: usize,
    found: bool,
}

/// A search as its paths, how many of them could not be loaded, and whether the one after
/// those was.
pub struct SearchView {
    pub paths: Seq<Seq<char>>,
    pub rejected: nat,
    pub found: bool,
}

impl SearchView {
    /// Whether there is a path left to load.
    pub open spec fn open(self) -> bool {
        !self.found && self.rejected < self.paths.len()
    }

    /// Where it leads that the next path could be loaded, or could not.
    pub open spec fn after(self, loaded: bool) -> SearchView {
        if !self.open() {
            self
        } else if loaded {
            SearchView { found: true, ..self }
        } else {
            SearchView { rejected: self.rejected + 1, ..self }
        }
    }

    /// Where a number of such answers lead, one after the other.
    pub open spec fn after_all(self, loads: Seq<bool>) -> SearchView
        decreases loads.len(),
    {
        if loads.len() == 0 {
            self
        } else {
            self.after_all(loads.drop_last()).after(loads.last())
        }
    }
}

impl View for DllSearch {
    type V = SearchView;

    closed spec fn view(&self) -> SearchView {
        SearchView { paths: texts(self.paths@), rejected: self.next as nat, found: self.found }
    }
}

impl DllSearch {
    /// A search that has tried nothing yet.
    pub fn new(paths: Vec<String>) -> (search: DllSearch)
        ensures
            search@ == (SearchView { paths: texts(paths@), rejected: 0, found: false }),
    {
        DllSearch { paths, next: 0, found: false }
    }

    /// Says what to do next.
    pub fn action(&self) -> (action: SearchAction)
        ensures
            match action {
                SearchAction::Load { path } => self@.open() && path@
                    == self@.paths[self@.rejected as int],
                SearchAction::Use => self@.found,
                SearchAction::GiveUp => !self@.found && !self@.open(),
            },
    {
        if self.found {
            SearchAction::Use
        } else if self.next < self.paths.len() {
            SearchAction::Load { path: self.paths[self.next].clone() }
        } else {
            SearchAction::GiveUp
        }
    }

    /// Takes whether the path that was to be loaded could be.
    pub fn reply(&mut self, loaded: bool)
        ensures
            final(self)@ == old(self)@.after(loaded),
    {
        if !self.found && self.next < self.paths.len() {
            if loaded {
                self.found = true;
            } else {
                self.next += 1;
            }
        }
    }
}

proof fn lemma_all_rejected(start: SearchView, loads: Seq<bool>)
    requires
        start.rejected == 0,
        !start.found,
        loads.len() <= start.paths.len(),
        forall|i: int| 0 <= i < loads.len() ==> !#[trigger] loads[i],
    ensures
        start.after_all(loads) == (SearchView { rejected: loads.len(), ..start }),
    decreases loads.len(),
{
    if loads.len() > 0 {
        lemma_all_rejected(start, loads.drop_last());
        assert(!loads[loads.len() - 1]);
    }
}

proof fn lemma_settled(start: SearchView, loads: Seq<bool>, k: int)
    requires
        0 <= k <= loads.len(),
        !start.after_all(loads.take(k)).open(),
    ensures
        start.after_all(loads) == start.after_all(loads.take(k)),
    decreases loads.len() - k,
{
    if k < loads.len() {
        assert(loads.take(k + 1).drop_last() =~= loads.take(k));
        lemma_settled(start, loads, k + 1);
    } else {
        assert(loads.take(k) =~= loads);
    }
}

/// The search uses the first path that can be loaded, and none after it is tried.
pub proof fn first_loadable_is_used(paths: Seq<Seq<char>>, loads: Seq<bool>, k: int)
    requires
        0 <= k < paths.len(),
        k < loads.len(),
        loads[k],
        forall|i: int| 0 <= i < k ==> !#[trigger] loads[i],
    ensures
        (SearchView { paths, rejected: 0, found: false }).after_all(loads) == (SearchView {
            paths,
            rejected: k as nat,
            found: true,
        }),
{
    let start = SearchView { paths, rejected: 0, found: false };
    lemma_all_rejected(start, loads.take(k));
    assert(loads.take(k + 1).drop_last() =~= loads.take(k));
    lemma_settled(start, loads, k + 1);
}

/// The search gives up exactly after every path was tried in vain.
pub proof fn gives_up_after_all(paths: Seq<Seq<char>>, loads: Seq<bool>)
    requires
        loads.len() == paths.len(),
        forall|i: int| 0 <= i < loads.len() ==> !#[trigger] loads[i],
    ensures
        ({
            let end = (SearchView { paths, rejected: 0, found: false }).after_all(loads);
            !end.found && !end.open()
        }),
        forall|k: int|
            0 <= k < loads.len() ==> (SearchView { paths, rejected: 0, found: false }).after_all(
                #[trigger] loads.take(k),
            ).open(),
{
    let start = SearchView { paths, rejected: 0, found: false };
    lemma_all_rejected(start, loads);
    assert forall|k: int| 0 <= k < loads.len() implies start.after_all(
        #[trigger] loads.take(k),
    ).open() by {
        lemma_all_rejected(start, loads.take(k));
    }
}

/// Every path that is tried is the override, the sibling, Windows Terminal's copy or
/// WezTerm's: no other program's copy is looked for.
pub proof fn no_other_copy(
    overriding: Option<Seq<char>>,
    sibling: Sibling,
    local_app_data: Seq<char>,
    path: Seq<char>,
)
    requires
        candidate_paths(overriding, sibling, local_app_data).contains(path),
    ensures
        overriding == Some(path) || (sibling matches Sibling::Path(beside) && beside@ == path)
            || path == local_app_data + TERMINAL_DLL@ || path == WEZTERM_DLL@,
{
}

/// The copies of Windows Terminal and of WezTerm are tried in every search, in this order
/// and after all else, whatever is known of the override and the sibling.
pub proof fn installed_copies_come_last(
    overriding: Option<Seq<char>>,
    sibling: Sibling,
    local_app_data: Seq<char>,
)
    ensures
        ({
            let paths = candidate_paths(overriding, sibling, local_app_data);
            &&& paths.len() >= 2
            &&& paths[paths.len() - 2] == local_app_data + TERMINAL_DLL@
            &&& paths[paths.len() - 1] == WEZTERM_DLL@
        }),
{
}

/// The functions that the library must provide.
#[derive(Clone, Copy, Debug, PartialEq, Eq, Structural)]
pub enum Symbol {
    Create,
    Close,
}

/// The name under which the library exports the function that makes a console.
pub const CREATE_SYMBOL: &'static str = "CreatePseudoConsole";

/// The name under which the library exports the function that closes a console.
pub const CLOSE_SYMBOL: &'static str = "ClosePseudoConsole";

/// What came of a path that was to be loaded.
#[derive(Clone, Copy, Debug, PartialEq, Eq, Structural)]
pub enum LoadOutcome {
    /// There is no library to be had under the path, for this reason.
    NotLoaded { error: WinError },
    /// There is one, but it is not fit for use, and the program cannot go on.
    Missing { symbol: Symbol },
    /// There is one, with its functions at these addresses.
    Loaded { create: usize, close: usize },
}

/// What is to be done next to load a path.
#[derive(Clone, Copy, Debug, PartialEq, Eq, Structural)]
pub enum LoadAction {
    /// Load the library.
    LoadLibrary,
    /// Look a function up in a library that was loaded.
    FindSymbol { module: usize, symbol: Symbol },
    /// Hand on what came of it. A library that was loaded stays loaded.
    Finish { outcome: LoadOutcome },
}

/// The answer to an action.
#[derive(Clone, Copy, Debug, PartialEq, Eq, Structural)]
pub enum LoadReply {
    Loaded { module: usize },
    NotLoaded { error: WinError },
    Found { address: usize },
    NotFound,
}

/// How far the loading of a path has come.
#[derive(Clone, Copy, Debug, PartialEq, Eq, Structural)]
pub enum DllLoad {
    Loading,
    FindingCreate { module: usize },
    FindingClose { module: usize, create: usize },
    Ended { outcome: LoadOutcome },
}

impl DllLoad {
    /// What is to be done at this point.
    pub open spec fn pending(self) -> LoadAction {
        match self {
            DllLoad::Loading => LoadAction::LoadLibrary,
            DllLoad::FindingCreate { module } => LoadAction::FindSymbol {
                module,
                symbol: Symbol::Create,
            },
            DllLoad::FindingClose { module, create } => LoadAction::FindSymbol {
                module,
                symbol: Symbol::Close,
            },
            DllLoad::Ended { outcome } => LoadAction::Finish { outcome },
        }
    }

    /// Where an answer leads. One that does not fit the pending action changes nothing.
    pub open spec fn after(self, reply: LoadReply) -> DllLoad {
        match (self, reply) {
            (DllLoad::Loading, LoadReply::Loaded { module }) => DllLoad::FindingCreate { module },
            (DllLoad::Loading, LoadReply::NotLoaded { error }) => DllLoad::Ended {
                outcome: LoadOutcome::NotLoaded { error },
            },
            (DllLoad::FindingCreate { module }, LoadReply::Found { address }) =>
                DllLoad::FindingClose { module, create: address },
            (DllLoad::FindingCreate { .. }, LoadReply::NotFound) => DllLoad::Ended {
                outcome: LoadOutcome::Missing { symbol: Symbol::Create },
            },
            (DllLoad::FindingClose { module, create }, LoadReply::Found { address }) =>
                DllLoad::Ended { outcome: LoadOutcome::Loaded { create, close: address } },
            (DllLoad::FindingClose { .. }, LoadReply::NotFound) => DllLoad::Ended {
                outcome: LoadOutcome::Missing { symbol: Symbol::Close },
            },
            _ => self,
        }
    }

    /// A path that has not been tried yet.
    pub fn new() -> (load: DllLoad)
        ensures
            load == DllLoad::Loading,
    {
        DllLoad::Loading
    }

    /// Says what is to be done next.
    pub fn action(&self) -> (action: LoadAction)
        ensures
            action == self.pending(),
    {
        match *self {
            DllLoad::Loading => LoadAction::LoadLibrary,
            DllLoad::FindingCreate { module } => LoadAction::FindSymbol {
                module,
                symbol: Symbol::Create,
            },
            DllLoad::FindingClose { module, create: _ } => LoadAction::FindSymbol {
                module,
                symbol: Symbol::Close,
            },
            DllLoad::Ended { outcome } => LoadAction::Finish { outcome },
        }
    }

    /// Takes the answer to the pending action.
    pub fn reply(&mut self, reply: LoadReply)
        ensures
            *final(self) == old(self).after(reply),
    {
        match (*self, reply) {
            (DllLoad::Loading, LoadReply::Loaded { module }) => {
                *self = DllLoad::FindingCreate { module };
            },
            (DllLoad::Loading, LoadReply::NotLoaded { error }) => {
                *self = DllLoad::Ended { outcome: LoadOutcome::NotLoaded { error } };
            },
            (DllLoad::FindingCreate { module }, LoadReply::Found { address }) => {
                *self = DllLoad::FindingClose { module, create: address };
            },
            (DllLoad::FindingCreate { module: _ }, LoadReply::NotFound) => {
                *self = DllLoad::Ended { outcome: LoadOutcome::Missing { symbol: Symbol::Create } };
            },
            (DllLoad::FindingClose { module: _, create }, LoadReply::Found { address }) => {
                *self = DllLoad::Ended { outcome: LoadOutcome::Loaded { create, close: address } };
            },
            (DllLoad::FindingClose { module: _, create: _ }, LoadReply::NotFound) => {
                *self = DllLoad::Ended { outcome: LoadOutcome::Missing { symbol: Symbol::Close } };
            },
            _ => {},
        }
    }
}

/// A library that cannot be loaded ends the attempt at once with the error of the load, and
/// no other answer to the load does: the functions are looked up in a loaded library only.
pub proof fn load_error_is_handed_on(reply: LoadReply, error: WinError)
    ensures
        DllLoad::Loading.after(reply).pending() == (LoadAction::Finish {
            outcome: LoadOutcome::NotLoaded { error },
        }) <==> reply == (LoadReply::NotLoaded { error }),
        DllLoad::Loading.after(reply).pending() is FindSymbol <==> reply is Loaded,
{
}

/// The answer to a lookup that gave this address, or none.
pub open spec fn lookup(address: Option<usize>) -> LoadReply {
    match address {
        Some(address) => LoadReply::Found { address },
        None => LoadReply::NotFound,
    }
}

/// A library is fit for use exactly where it loads and exports both functions. Both are
/// looked up in that library, the one that makes a console first, and each is used as what
/// it was looked up for.
pub proof fn library_needs_both_functions(
    module: usize,
    create: Option<usize>,
    close: Option<usize>,
)
    ensures
        ({
            let loaded = DllLoad::Loading.after(LoadReply::Loaded { module });
            let half = loaded.after(lookup(create));
            let end = half.after(lookup(close));
            &&& loaded.pending() == (LoadAction::FindSymbol { module, symbol: Symbol::Create })
            &&& create is Some ==> half.pending() == (LoadAction::FindSymbol {
                module,
                symbol: Symbol::Close,
            })
            &&& end.pending() == (LoadAction::Finish {
                outcome: match (create, close) {
                    (None, _) => LoadOutcome::Missing { symbol: Symbol::Create },
                    (Some(_), None) => LoadOutcome::Missing { symbol: Symbol::Close },
                    (Some(a), Some(b)) => LoadOutcome::Loaded { create: a, close: b },
                },
            })
        }),
{
}

/// Writes what is said of a library that does not export a function.
pub fn missing_message(symbol: Symbol) -> (message: String)
    ensures
        message@ == "conpty.dll missing "@ + (match symbol {
            Symbol::Create => CREATE_SYMBOL@,
            Symbol::Close => CLOSE_SYMBOL@,
        }),
{
    let mut message = "conpty.dll missing ".to_owned();
    match symbol {
        Symbol::Create => message.append(CREATE_SYMBOL),
        Symbol::Close => message.append(CLOSE_SYMBOL),
    }
    message
}

/// What the pseudoconsole is made from.
#[derive(Clone, Copy, Debug, PartialEq, Eq, Structural)]
pub struct PtyRequest {
    pub columns: i16,
    pub rows: i16,
    pub input: usize,
    pub output: usize,
    pub flags: u32,
}

/// What came of the request for a pseudoconsole.
#[derive(Clone, Copy, Debug, PartialEq, Eq, Structural)]
pub enum PtyOutcome {
    /// The console exists and the program's own handle of the pipe end is to be closed.
    Created { pty: isize, close: usize },
    Failed { error: WinError },
}

/// Asks for a pseudoconsole that reads from and writes to the same pipe end.
pub fn pty_request(columns: i16, rows: i16, pipe: usize) -> (request: PtyRequest)
    ensures
        request == (PtyRequest { columns, rows, input: pipe, output: pipe, flags: 0 }),
{
    PtyRequest { columns, rows, input: pipe, output: pipe, flags: 0 }
}

/// Takes the HRESULT of the request and the console that it produced. A refused request
/// leaves the pipe end open.
pub fn pty_reply(request: &PtyRequest, hresult: i32, pty: isize) -> (outcome: PtyOutcome)
    ensures
        outcome == (match outcome_of(hresult) {
            Ok(()) => PtyOutcome::Created { pty, close: request.input },
            Err(error) => PtyOutcome::Failed { error },
        }),
{
    match check_hresult(hresult) {
        Ok(()) => PtyOutcome::Created { pty, close: request.input },
        Err(error) => PtyOutcome::Failed { error },
    }
}

} // verus!
