//! The commands of `track` and the decisions they make: what each one does
//! to the registry, what it reports, and how failures are shown.

use vstd::prelude::*;

use crate::client::{Event, FetchError};
use crate::state::{add_outcome, entries_of, opt_view, remove_outcome, ParcelView, State};
use crate::views::{blank, info_lines, line_view, lines_view, single, styled, Line, Style, Styled, TrackingInfo};

verus! {

/// A regex error of the regex crate, carried through without being looked
/// into.
#[verifier::external_type_specification]
#[verifier::external_body]
pub struct ExRegexError(regex::Error);

/// Arguments for `track init`. The API key is taken as it is given: no
/// length or form is required of it.
pub struct Init {
    /// Whether an existing configuration may be replaced.
    pub force: bool,
}

/// Arguments for `track info`.
pub struct Info {
    /// The tracking number.
    pub tracking_number: String,
}

/// Arguments for `track list`.
pub struct List;

/// Arguments for `track add`; what is not given is asked for.
pub struct Add {
    /// The tracking number.
    pub tracking_number: Option<String>,
    /// A description for the parcel.
    pub description: Option<String>,
}

/// Arguments for `track remove`; without a tracking number, the parcel is
/// chosen among the tracked ones.
pub struct Remove {
    /// The tracking number.
    pub tracking_number: Option<String>,
}

/// Arguments for `track all`.
pub struct All;

/// A command of `track`.
pub enum Track {
    /// Initialise the configuration.
    Init(Init),
    /// Retrieve and print tracking info for a parcel.
    Info(Info),
    /// Print the set of tracked parcels.
    List(List),
    /// Add a parcel to the tracked set.
    Add(Add),
    /// Remove a parcel from the tracked set.
    Remove(Remove),
    /// Retrieve and print tracking info for all tracked parcels.
    All(All),
}

/// Usage errors of `track init`.
pub enum InitError {
    /// There is already a configuration, and replacing it was not asked for.
    ExistingConfig,
}

/// Usage errors of `track remove`.
pub enum RemoveError {
    /// There is no tracked parcel to choose from.
    NoParcel,
}

/// A failure of a command, as the dispatcher tells them apart.
pub enum Failure {
    /// The configuration could not be loaded.
    Config,
    /// A usage error of `track init`.
    Init(InitError),
    /// A usage error of `track remove`.
    Remove(RemoveError),
    /// Any other failure, shown as it is.
    Other,
}

/// The text of an init usage error.
pub open spec fn init_error_text(e: InitError) -> Seq<char> {
    match e {
        InitError::ExistingConfig => "There is already a configuration."@,
    }
}

/// The text of a remove usage error.
pub open spec fn remove_error_text(e: RemoveError) -> Seq<char> {
    match e {
        RemoveError::NoParcel => "There are no tracked parcels."@,
    }
}

impl InitError {
    /// The text of the error.
    pub fn message(&self) -> (r: String)
        ensures
            r@ == init_error_text(*self),
    {
        match self {
            InitError::ExistingConfig => String::from_str("There is already a configuration."),
        }
    }
}

impl RemoveError {
    /// The text of the error.
    pub fn message(&self) -> (r: String)
        ensures
            r@ == remove_error_text(*self),
    {
        match self {
            RemoveError::NoParcel => String::from_str("There are no tracked parcels."),
        }
    }
}

/// What is shown for a failure before `track` exits with status 1; `None`
/// for a failure that is passed on as it is.
pub open spec fn failure_report(f: Failure) -> Option<Seq<(Style, Seq<char>)>> {
    match f {
        Failure::Config => Some(
            seq![
                (Style::Error, "The configuration is absent or invalid."@),
                (Style::Hint, "You can create a configuration by running `track init`."@),
            ],
        ),
        Failure::Init(e) => Some(
            seq![
                (Style::Error, init_error_text(e)),
                (Style::Hint, "You can force the command by running `track init -f`."@),
            ],
        ),
        Failure::Remove(e) => Some(seq![(Style::Error, remove_error_text(e))]),
        Failure::Other => None,
    }
}

/// Decides how a failure is shown: the messages to print before exiting with
/// status 1, or `None` where the failure is passed on as it is.
pub fn handle_errors(e: &Failure) -> (r: Option<Vec<Styled>>)
    ensures
        match r {
            Some(messages) => failure_report(*e) == Some(line_view(messages@)),
            None => failure_report(*e) is None,
        },
{
    let mut messages: Vec<Styled> = Vec::new();
    match e {
        Failure::Config => {
            messages.push(
                styled(Style::Error, String::from_str("The configuration is absent or invalid.")),
            );
            messages.push(
                styled(
                    Style::Hint,
                    String::from_str("You can create a configuration by running `track init`."),
                ),
            );
        },
        Failure::Init(init) => {
            messages.push(styled(Style::Error, init.message()));
            messages.push(
                styled(
                    Style::Hint,
                    String::from_str("You can force the command by running `track init -f`."),
                ),
            );
        },
        Failure::Remove(remove) => {
            messages.push(styled(Style::Error, remove.message()));
        },
        Failure::Other => {
            return None;
        },
    }
    assert(failure_report(*e) == Some(line_view(messages@)));
    Some(messages)
}

impl Init {
    /// Decides whether the configuration may be written: not where one
    /// exists already, unless forced.
    pub fn check(&self, config_exists: bool) -> (r: Result<(), InitError>)
        ensures
            r is Err <==> !self.force && config_exists,
    {
        if !self.force && config_exists {
            Err(InitError::ExistingConfig)
        } else {
            Ok(())
        }
    }

    /// The report once the configuration is written.
    pub fn done() -> (r: Styled)
        ensures
            r@ == (Style::Success, "The configuration has been initialised."@),
    {
        styled(Style::Success, String::from_str("The configuration has been initialised."))
    }
}

impl Info {
    /// What a failure to fetch the events is reported with.
    pub fn fetch_context(&self) -> (r: String)
        ensures
            r@ == "error getting tracking info for "@ + self.tracking_number@,
    {
        let mut context = String::from_str("error getting tracking info for ");
        context.append(self.tracking_number.as_str());
        context
    }
}

/// The report of adding a parcel to a registry.
pub open spec fn add_report(
    registry: Map<Seq<char>, Seq<char>>,
    tracking_number: Seq<char>,
    description: Seq<char>,
) -> (Style, Seq<char>) {
    match add_outcome(registry, tracking_number, description).1 {
        Some(previous) => (
            Style::Success,
            previous + " ("@ + tracking_number + ") has been renamed to “"@ + description + "”."@,
        ),
        None => (Style::Success, description + " ("@ + tracking_number + ") is now tracked."@),
    }
}

/// The report of removing a parcel from a registry.
pub open spec fn remove_report(registry: Map<Seq<char>, Seq<char>>, tracking_number: Seq<char>) -> (
    Style,
    Seq<char>,
) {
    match remove_outcome(registry, tracking_number).1 {
        Some(description) => (
            Style::Success,
            description + " ("@ + tracking_number + ") is not tracked anymore."@,
        ),
        None => (Style::Notice, tracking_number + " was not tracked."@),
    }
}

impl Add {
    /// Adds a parcel to the registry, or renames it, and reports which.
    pub fn apply(state: &mut State, tracking_number: &str, description: &str) -> (r: Styled)
        ensures
            final(state)@ == add_outcome(old(state)@, tracking_number@, description@).0,
            r@ == add_report(old(state)@, tracking_number@, description@),
    {
        let previous = state.add_parcel(tracking_number, description);
        let text = match previous {
            Some(previous) => {
                let mut text = previous;
                text.append(" (");
                text.append(tracking_number);
                text.append(") has been renamed to “");
                text.append(description);
                text.append("”.");
                text
            },
            None => {
                let mut text = String::from_str(description);
                text.append(" (");
                text.append(tracking_number);
                text.append(") is now tracked.");
                text
            },
        };
        styled(Style::Success, text)
    }
}

/// The text of a parcel in a list or a choice: its tracking number, a colon,
/// and its description.
pub open spec fn option_text(tracking_number: Seq<char>, description: Seq<char>) -> Seq<char> {
    tracking_number + ": "@ + description
}

/// Builds an option from a parcel tuple.
pub fn to_option(parcel: (&String, &String)) -> (r: String)
    ensures
        r@ == option_text(parcel.0@, parcel.1@),
{
    let (tracking_number, description) = parcel;
    let mut text = tracking_number.clone();
    text.append(": ");
    text.append(description.as_str());
    text
}

/// The pattern that finds the tracking number at the start of an option.
pub const OPTION_PATTERN: &'static str = r"^(\w+): .*$";

/// The first group of the leftmost match of a regular expression in a text,
/// if the expression matches and the group takes part in the match.
pub uninterp spec fn first_group_of(pattern: Seq<char>, text: Seq<char>) -> Option<Seq<char>>;

/// Relies on regex's `Regex::new`, then `Regex::captures` and
/// `Captures::get(1)`: where the pattern compiles, the text of the first
/// group of the leftmost match, which depends on the pattern and the text
/// alone.
#[verifier::external_body]
fn capture_first_group(pattern: &str, text: &str) -> (r: Result<Option<String>, regex::Error>)
    ensures
        r matches Ok(found) ==> opt_view(found) == first_group_of(pattern@, text@),
{
    let re = regex::Regex::new(pattern)?;
    let group = re.captures(text).and_then(|c| c.get(1));
    Ok(group.map(|m| m.as_str().to_owned()))
}

/// Extracts the tracking number from a selected option; `None` where the
/// option does not start with one.
pub fn extract_tracking_number(option: &str) -> (r: Option<String>)
    ensures
        r matches Some(n) ==> first_group_of(OPTION_PATTERN@, option@) == Some(n@),
        first_group_of(OPTION_PATTERN@, option@) is None ==> r is None,
{
    match capture_first_group(OPTION_PATTERN, option) {
        Ok(found) => found,
        Err(_) => None,
    }
}

impl Remove {
    /// Removes a parcel from the registry and reports whether it was
    /// tracked; an untracked one is a notice, not an error.
    pub fn apply(state: &mut State, tracking_number: &str) -> (r: Styled)
        ensures
            final(state)@ == remove_outcome(old(state)@, tracking_number@).0,
            r@ == remove_report(old(state)@, tracking_number@),
    {
        match state.remove_parcel(tracking_number) {
            Some(description) => {
                let mut text = description;
                text.append(" (");
                text.append(tracking_number);
                text.append(") is not tracked anymore.");
                styled(Style::Success, text)
            },
            None => {
                let mut text = String::from_str(tracking_number);
                text.append(" was not tracked.");
                styled(Style::Notice, text)
            },
        }
    }

    /// The options to choose the parcel to remove from, one per tracked
    /// parcel and in order; an error where nothing is tracked.
    pub fn choices(state: &State) -> (r: Result<Vec<String>, RemoveError>)
        ensures
            match r {
                Ok(options) => state.entries().len() > 0 && options@.len() == state.entries().len()
                    && forall|i: int|
                    0 <= i < options@.len() ==> #[trigger] options@[i]@ == option_text(
                        state.entries()[i].0,
                        state.entries()[i].1,
                    ),
                Err(e) => state.entries().len() == 0 && e == RemoveError::NoParcel,
            },
    {
        let parcels = state.parcels();
        if parcels.len() == 0 {
            return Err(RemoveError::NoParcel);
        }
        let mut options: Vec<String> = Vec::new();
        let mut i: usize = 0;
        while i < parcels.len()
            invariant
                i <= parcels.len(),
                entries_of(parcels@) == state.entries(),
                options@.len() == i,
                forall|j: int|
                    0 <= j < i ==> #[trigger] options@[j]@ == option_text(
                        state.entries()[j].0,
                        state.entries()[j].1,
                    ),
            decreases parcels.len() - i,
        {
            let option = to_option((&parcels[i].0, &parcels[i].1));
            options.push(option);
            i = i + 1;
        }
        Ok(options)
    }
}

/// The context that a failure to fetch a parcel's events is reported with
/// by `track all`.
pub open spec fn all_context(tracking_number: Seq<char>, description: Seq<char>) -> Seq<char> {
    "error getting tracking info for "@ + description + " ("@ + tracking_number + ")"@
}

/// What `track all` does with the answer for one parcel.
pub enum AllStep {
    /// Shows these lines and goes on with the next parcel.
    Show(Vec<Line>),
    /// Stops, reporting the failure with this context.
    Halt(String),
}

/// The progress of `track all` through the registry: the parcel whose events
/// come next, and whether a failure has stopped the run. The events of each
/// parcel are shown in the order of the registry; the first failure stops the
/// run, and no parcel after it is asked for.
pub struct AllSession {
    next: usize,
    halted: bool,
}

impl AllSession {
    /// The position in the registry of the parcel whose events come next.
    pub closed spec fn spec_next(&self) -> nat {
        self.next as nat
    }

    /// Whether a failure has stopped the run.
    pub closed spec fn spec_halted(&self) -> bool {
        self.halted
    }

    /// Whether the events of a parcel are still to be asked for.
    pub open spec fn pending(&self, entries: Seq<ParcelView>) -> bool {
        !self.spec_halted() && self.spec_next() < entries.len()
    }

    /// Starts a run at the first parcel.
    pub fn start() -> (r: Self)
        ensures
            r.spec_next() == 0,
            !r.spec_halted(),
    {
        AllSession { next: 0, halted: false }
    }

    /// The tracking number whose events are to be fetched now, or `None`
    /// once the run is over.
    pub fn next_request(&self, state: &State) -> (r: Option<String>)
        ensures
            match r {
                Some(n) => self.pending(state.entries()) && n@ == state.entries()[self.spec_next() as int].0,
                None => !self.pending(state.entries()),
            },
    {
        let parcels = state.parcels();
        if !self.halted && self.next < parcels.len() {
            Some(parcels[self.next].0.clone())
        } else {
            None
        }
    }

    /// Takes the answer for the parcel asked for: shows its events and moves
    /// on, or stops the run on a failure. `None` where no parcel was asked
    /// for.
    pub fn on_fetched(&mut self, state: &State, fetched: Result<Vec<Event>, FetchError>) -> (r:
        Option<AllStep>)
        ensures
            !old(self).pending(state.entries()) ==> r is None && *final(self) == *old(self),
            old(self).pending(state.entries()) ==> {
                let parcel = state.entries()[old(self).spec_next() as int];
                match fetched {
                    Ok(events) => r matches Some(AllStep::Show(lines)) && lines_view(lines@)
                        == info_lines(parcel.0, Some(parcel.1), events@) && final(self).spec_next()
                        == old(self).spec_next() + 1 && !final(self).spec_halted(),
                    Err(_) => r matches Some(AllStep::Halt(context)) && context@ == all_context(
                        parcel.0,
                        parcel.1,
                    ) && final(self).spec_next() == old(self).spec_next()
                        && final(self).spec_halted(),
                }
            },
    {
        let parcels = state.parcels();
        if self.halted || self.next >= parcels.len() {
            return None;
        }
        let tracking_number = parcels[self.next].0.as_str();
        let description = parcels[self.next].1.as_str();
        match fetched {
            Ok(events) => {
                let view = TrackingInfo::new(tracking_number, Some(description), events.as_slice());
                let lines = view.render();
                self.next = self.next + 1;
                Some(AllStep::Show(lines))
            },
            Err(_) => {
                let mut context = String::from_str("error getting tracking info for ");
                context.append(description);
                context.append(" (");
                context.append(tracking_number);
                context.append(")");
                self.halted = true;
                Some(AllStep::Halt(context))
            },
        }
    }
}

/// The heading of the list of tracked parcels.
pub open spec fn list_heading() -> Seq<char> {
    "--- Tracked parcels ---"@
}

/// The lines of the list of tracked parcels: a blank line, the heading in
/// bold, a blank line, one line per parcel in order, and a blank line.
pub open spec fn list_lines(entries: Seq<ParcelView>) -> Seq<Seq<(Style, Seq<char>)>> {
    seq![Seq::empty(), seq![(Style::Bold, list_heading())], Seq::empty()] + Seq::new(
        entries.len(),
        |i: int| seq![(Style::Plain, option_text(entries[i].0, entries[i].1))],
    ) + seq![Seq::empty()]
}

impl List {
    /// Renders the tracked parcels.
    pub fn render(state: &State) -> (r: Vec<Line>)
        ensures
            lines_view(r@) == list_lines(state.entries()),
    {
        let parcels = state.parcels();
        let mut lines: Vec<Line> = Vec::new();
        lines.push(blank());
        lines.push(single(Style::Bold, String::from_str("--- Tracked parcels ---")));
        lines.push(blank());
        let ghost head = lines_view(lines@);
        assert(head =~= seq![Seq::empty(), seq![(Style::Bold, list_heading())], Seq::empty()]);
        let ghost entries = state.entries();
        let ghost body = Seq::new(
            entries.len(),
            |i: int| seq![(Style::Plain, option_text(entries[i].0, entries[i].1))],
        );
        let mut i: usize = 0;
        while i < parcels.len()
            invariant
                i <= parcels.len(),
                entries_of(parcels@) == entries,
                body.len() == entries.len(),
                forall|j: int|
                    0 <= j < entries.len() ==> #[trigger] body[j] == seq![
                        (Style::Plain, option_text(entries[j].0, entries[j].1)),
                    ],
                lines_view(lines@) =~= head + body.take(i as int),
            decreases parcels.len() - i,
        {
            let ghost before = lines@;
            let line = single(Style::Plain, to_option((&parcels[i].0, &parcels[i].1)));
            let ghost added = line_view(line@);
            lines.push(line);
            assert(lines@ == before.push(lines@[lines@.len() - 1]));
            assert(lines_view(lines@) =~= lines_view(before).push(added));
            assert(body.take(i + 1) =~= body.take(i as int).push(body[i as int]));
            i = i + 1;
        }
        assert(body.take(i as int) =~= body);
        let ghost before = lines@;
        lines.push(blank());
        assert(lines@ == before.push(lines@[lines@.len() - 1]));
        assert(lines_view(lines@) =~= lines_view(before).push(Seq::empty()));
        assert(lines_view(lines@) =~= list_lines(entries));
        lines
    }
}

} // verus!
