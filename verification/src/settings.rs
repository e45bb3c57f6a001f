//! Persisted user settings.
//!
//! They are stored as JSON in the OS config dir. [`LoadRun`] and [`SaveRun`] say what to do next
//! with the file, and take in what came of it; whoever drives them resolves the directory,
//! touches the disk, and turns settings into JSON and back.

use vstd::prelude::*;
use vstd::string::*;

verus! {

/// The file's name in the app's config directory.
pub const FILE_NAME: &'static str = "settings.json";

#[derive(Debug, Clone, Copy, PartialEq, Eq, Structural)]
pub struct Settings {
    /// Hold the display assertion as well as the system one. On macOS this is what stops the
    /// screen blanking and locking.
    pub keep_display: bool,
    /// What the tray "Turn On" item starts. `None` means indefinite.
    pub default_duration_secs: Option<u64>,
}

/// Keeping the display on is what most people mean by "keep my Mac awake", so it is the default
/// even though it is the more aggressive of the two.
pub open spec fn default_settings() -> Settings {
    Settings { keep_display: true, default_duration_secs: None }
}

impl Default for Settings {
    fn default() -> (settings: Settings)
        ensures
            settings == default_settings(),
    {
        Settings { keep_display: true, default_duration_secs: None }
    }
}

// ---------------------------------------------------------------------------
// Loading
// ---------------------------------------------------------------------------

/// What became of reading the settings file.
#[derive(Debug, PartialEq, Eq)]
pub enum FileReading {
    /// There is no config directory to look in.
    NoDirectory,
    /// The file is not there or cannot be read.
    Unreadable,
    /// The file at `path` is not a settings file, for the reason `err`.
    Corrupt { path: String, err: String },
    /// The file holds these settings.
    Read(Settings),
}

/// What loading wants done next.
#[derive(Debug, PartialEq, Eq)]
pub enum LoadCall {
    /// Find the config directory.
    Resolve,
    /// Read the file in it.
    Read,
    /// Make settings of this text.
    Decode(String),
    /// Nothing more: the result stands.
    Nothing,
}

/// What came of what was wanted.
#[derive(Debug, PartialEq, Eq)]
pub enum LoadAnswer {
    /// The directory is there.
    Found,
    /// The file holds this text.
    Text(String),
    /// The reading ends here, with this.
    Ended(FileReading),
}

/// A load under way.
#[derive(Debug)]
pub struct LoadRun {
    due: LoadCall,
    reading: FileReading,
}

/// What a [`LoadCall`] says.
pub enum LoadCallView {
    Resolve,
    Read,
    Decode(Seq<char>),
    Nothing,
}

impl View for LoadCall {
    type V = LoadCallView;

    open spec fn view(&self) -> LoadCallView {
        match *self {
            LoadCall::Resolve => LoadCallView::Resolve,
            LoadCall::Read => LoadCallView::Read,
            LoadCall::Decode(text) => LoadCallView::Decode(text@),
            LoadCall::Nothing => LoadCallView::Nothing,
        }
    }
}

/// The state of a [`LoadRun`]: the call that is due, and what the load comes to if it ends here.
pub struct LoadView {
    pub due: LoadCallView,
    pub reading: FileReading,
}

impl View for LoadRun {
    type V = LoadView;

    closed spec fn view(&self) -> LoadView {
        LoadView { due: self.due@, reading: self.reading }
    }
}

/// The state in which a load begins.
pub open spec fn load_begin() -> LoadView {
    LoadView { due: LoadCallView::Resolve, reading: FileReading::NoDirectory }
}

impl LoadView {
    /// The state after what is due has been answered. An answer to something else changes
    /// nothing.
    pub open spec fn answered(self, answer: LoadAnswer) -> LoadView {
        match (self.due, answer) {
            (LoadCallView::Nothing, _) => self,
            (_, LoadAnswer::Ended(reading)) => LoadView { due: LoadCallView::Nothing, reading },
            (LoadCallView::Resolve, LoadAnswer::Found) => LoadView {
                due: LoadCallView::Read,
                reading: FileReading::Unreadable,
            },
            (LoadCallView::Read, LoadAnswer::Text(text)) => LoadView {
                due: LoadCallView::Decode(text@),
                ..self
            },
            _ => self,
        }
    }
}

/// The line that reports a file which was passed over.
pub open spec fn corrupt_report(path: Seq<char>, err: Seq<char>) -> Seq<char> {
    "no-afk: ignoring unreadable "@ + path + ": "@ + err
}

/// The settings to go by after a reading, and the line to report if a file was passed over.
pub open spec fn loaded(reading: FileReading) -> (Settings, Option<Seq<char>>) {
    match reading {
        FileReading::Read(settings) => (settings, None),
        FileReading::Corrupt { path, err } => (
            default_settings(),
            Some(corrupt_report(path@, err@)),
        ),
        _ => (default_settings(), None),
    }
}

/// `what: err`.
fn attributed(what: &str, err: &str) -> (text: String)
    ensures
        text@ == what@ + ": "@ + err@,
{
    let mut text = what.to_owned();
    text.append(": ");
    text.append(err);
    text
}

impl LoadRun {
    /// What is due.
    pub fn next(&self) -> (call: LoadCall)
        ensures
            call@ == self@.due,
    {
        match &self.due {
            LoadCall::Resolve => LoadCall::Resolve,
            LoadCall::Read => LoadCall::Read,
            LoadCall::Decode(text) => LoadCall::Decode(text.clone()),
            LoadCall::Nothing => LoadCall::Nothing,
        }
    }

    /// Take in what came of what was due.
    pub fn answered(&mut self, answer: LoadAnswer)
        ensures
            final(self)@ == old(self)@.answered(answer),
    {
        match (&self.due, answer) {
            (LoadCall::Nothing, _) => {},
            (_, LoadAnswer::Ended(reading)) => {
                self.due = LoadCall::Nothing;
                self.reading = reading;
            },
            (LoadCall::Resolve, LoadAnswer::Found) => {
                self.due = LoadCall::Read;
                self.reading = FileReading::Unreadable;
            },
            (LoadCall::Read, LoadAnswer::Text(text)) => {
                self.due = LoadCall::Decode(text);
            },
            _ => {},
        }
    }

    /// The settings to go by, and the line to report if a file was passed over.
    ///
    /// A corrupt or unreadable file is not an error worth surfacing: the app must still start,
    /// and defaults are always safe.
    pub fn finish(self) -> (outcome: (Settings, Option<String>))
        ensures
            outcome.0 == loaded(self@.reading).0,
            match outcome.1 {
                Some(line) => loaded(self@.reading).1 == Some(line@),
                None => loaded(self@.reading).1 is None,
            },
    {
        match self.reading {
            FileReading::NoDirectory => (Settings::default(), None),
            FileReading::Unreadable => (Settings::default(), None),
            FileReading::Corrupt { path, err } => {
                let mut line = "no-afk: ignoring unreadable ".to_owned();
                line.append(attributed(path.as_str(), err.as_str()).as_str());
                assert(line@ =~= corrupt_report(path@, err@));
                (Settings::default(), Some(line))
            },
            FileReading::Read(settings) => (settings, None),
        }
    }
}

// ---------------------------------------------------------------------------
// Saving
// ---------------------------------------------------------------------------

/// Where saving the settings failed.
#[derive(Debug, PartialEq, Eq)]
pub enum SaveFault {
    /// There is no config directory to write to.
    NoDirectory,
    /// The directory `dir` cannot be made.
    Directory { dir: String, err: String },
    /// The settings cannot be written as JSON.
    Encoding { err: String },
    /// The file at `path` cannot be written.
    Write { path: String, err: String },
}

/// What saving wants done next.
#[derive(Debug, PartialEq, Eq)]
pub enum SaveCall {
    /// Find the config directory.
    Resolve,
    /// Make it, if it is not there.
    MakeDirectory,
    /// Make text of these settings.
    Encode(Settings),
    /// Have the file hold this text and nothing else.
    Write(String),
    /// Nothing more: the result stands.
    Nothing,
}

/// A save under way.
#[derive(Debug)]
pub struct SaveRun {
    settings: Settings,
    due: SaveCall,
    fault: Option<SaveFault>,
}

/// What a [`SaveCall`] says.
pub enum SaveCallView {
    Resolve,
    MakeDirectory,
    Encode(Settings),
    Write(Seq<char>),
    Nothing,
}

impl View for SaveCall {
    type V = SaveCallView;

    open spec fn view(&self) -> SaveCallView {
        match *self {
            SaveCall::Resolve => SaveCallView::Resolve,
            SaveCall::MakeDirectory => SaveCallView::MakeDirectory,
            SaveCall::Encode(settings) => SaveCallView::Encode(settings),
            SaveCall::Write(text) => SaveCallView::Write(text@),
            SaveCall::Nothing => SaveCallView::Nothing,
        }
    }
}

/// The state of a [`SaveRun`]: what is being saved, the call that is due, and the fault that
/// ended it.
pub struct SaveView {
    pub settings: Settings,
    pub due: SaveCallView,
    pub fault: Option<SaveFault>,
}

impl View for SaveRun {
    type V = SaveView;

    closed spec fn view(&self) -> SaveView {
        SaveView { settings: self.settings, due: self.due@, fault: self.fault }
    }
}

/// The state in which a save begins.
pub open spec fn save_begin(settings: Settings) -> SaveView {
    SaveView { settings, due: SaveCallView::Resolve, fault: None }
}

/// The message for a fault in saving.
pub open spec fn save_message(fault: SaveFault) -> Seq<char> {
    match fault {
        SaveFault::NoDirectory => "could not resolve the config directory"@,
        SaveFault::Directory { dir, err } => dir@ + ": "@ + err@,
        SaveFault::Encoding { err } => err@,
        SaveFault::Write { path, err } => path@ + ": "@ + err@,
    }
}

impl SaveView {
    /// The state after what is due has been answered: by a fault, which ends the save, or else
    /// by a text, which is what an encoding came to and means nothing otherwise.
    pub open spec fn answered(self, answer: Result<Seq<char>, SaveFault>) -> SaveView {
        match (self.due, answer) {
            (SaveCallView::Nothing, _) => self,
            (_, Err(fault)) => SaveView {
                due: SaveCallView::Nothing,
                fault: Some(fault),
                ..self
            },
            (SaveCallView::Resolve, Ok(_)) => SaveView {
                due: SaveCallView::MakeDirectory,
                ..self
            },
            (SaveCallView::MakeDirectory, Ok(_)) => SaveView {
                due: SaveCallView::Encode(self.settings),
                ..self
            },
            (SaveCallView::Encode(_), Ok(text)) => SaveView {
                due: SaveCallView::Write(text),
                ..self
            },
            (SaveCallView::Write(_), Ok(_)) => SaveView { due: SaveCallView::Nothing, ..self },
        }
    }
}

/// An answer with the text taken by what it says.
pub open spec fn save_answer_view(answer: Result<String, SaveFault>) -> Result<
    Seq<char>,
    SaveFault,
> {
    match answer {
        Ok(text) => Ok(text@),
        Err(fault) => Err(fault),
    }
}

impl SaveRun {
    /// What is due.
    pub fn next(&self) -> (call: SaveCall)
        ensures
            call@ == self@.due,
    {
        match &self.due {
            SaveCall::Resolve => SaveCall::Resolve,
            SaveCall::MakeDirectory => SaveCall::MakeDirectory,
            SaveCall::Encode(settings) => SaveCall::Encode(*settings),
            SaveCall::Write(text) => SaveCall::Write(text.clone()),
            SaveCall::Nothing => SaveCall::Nothing,
        }
    }

    /// Take in what came of what was due: a fault, or else the text that an encoding came to,
    /// and any text otherwise.
    pub fn answered(&mut self, answer: Result<String, SaveFault>)
        ensures
            final(self)@ == old(self)@.answered(save_answer_view(answer)),
    {
        match (&self.due, answer) {
            (SaveCall::Nothing, _) => {},
            (_, Err(fault)) => {
                self.due = SaveCall::Nothing;
                self.fault = Some(fault);
            },
            (SaveCall::Resolve, Ok(_)) => {
                self.due = SaveCall::MakeDirectory;
            },
            (SaveCall::MakeDirectory, Ok(_)) => {
                self.due = SaveCall::Encode(self.settings);
            },
            (SaveCall::Encode(_), Ok(text)) => {
                self.due = SaveCall::Write(text);
            },
            (SaveCall::Write(_), Ok(_)) => {
                self.due = SaveCall::Nothing;
            },
        }
    }

    /// What the save came to, once nothing is due.
    pub fn finish(self) -> (result: Result<(), String>)
        ensures
            match self@.fault {
                None => result is Ok,
                Some(fault) => result is Err && result->Err_0@ == save_message(fault),
            },
    {
        match self.fault {
            None => Ok(()),
            Some(SaveFault::NoDirectory) => Err(
                "could not resolve the config directory".to_owned(),
            ),
            Some(SaveFault::Directory { dir, err }) => Err(attributed(dir.as_str(), err.as_str())),
            Some(SaveFault::Encoding { err }) => Err(err),
            Some(SaveFault::Write { path, err }) => Err(attributed(path.as_str(), err.as_str())),
        }
    }
}

impl Settings {
    /// Begin to read from disk, falling back to defaults.
    pub fn load() -> (run: LoadRun)
        ensures
            run@ == load_begin(),
    {
        LoadRun { due: LoadCall::Resolve, reading: FileReading::NoDirectory }
    }

    /// Begin to write to disk.
    pub fn save(&self) -> (run: SaveRun)
        ensures
            run@ == save_begin(*self),
    {
        SaveRun { settings: *self, due: SaveCall::Resolve, fault: None }
    }
}

// ---------------------------------------------------------------------------
// Laws
// ---------------------------------------------------------------------------

/// A save of these settings after these answers.
pub open spec fn save_after(
    settings: Settings,
    answers: Seq<Result<Seq<char>, SaveFault>>,
) -> SaveView
    decreases answers.len(),
{
    if answers.len() == 0 {
        save_begin(settings)
    } else {
        save_after(settings, answers.drop_last()).answered(answers.last())
    }
}

/// The text that the file was made to hold on the way, if any.
pub open spec fn written(
    settings: Settings,
    answers: Seq<Result<Seq<char>, SaveFault>>,
) -> Option<Seq<char>>
    decreases answers.len(),
{
    if answers.len() == 0 {
        None
    } else {
        match save_after(settings, answers.drop_last()).due {
            SaveCallView::Write(text) if answers.last() is Ok => Some(text),
            _ => written(settings, answers.drop_last()),
        }
    }
}

/// A save is over after four answers. It succeeds exactly if none of them is a fault, and else
/// reports the first. If it succeeds, the settings that were encoded are the ones to be saved,
/// and the file holds what they were encoded as; if it fails, nothing was written.
pub proof fn law_save_writes_the_settings(
    settings: Settings,
    answers: Seq<Result<Seq<char>, SaveFault>>,
)
    requires
        answers.len() == 4,
    ensures
        ({
            let run = save_after(settings, answers);
            let all_went_well = forall|i: int| 0 <= i < 4 ==> #[trigger] answers[i] is Ok;
            &&& run.due is Nothing
            &&& run.settings == settings
            &&& run.fault is None <==> all_went_well
            &&& forall|k: int|
                0 <= k < 4 && (#[trigger] answers[k]) is Err && (forall|j: int|
                    0 <= j < k ==> #[trigger] answers[j] is Ok) ==> run.fault == Some(
                    answers[k]->Err_0,
                )
            &&& all_went_well ==> {
                &&& save_after(settings, answers.take(2)).due == SaveCallView::Encode(settings)
                &&& written(settings, answers) == Some(answers[2]->Ok_0)
            }
            &&& !all_went_well ==> written(settings, answers) is None
        }),
{
    reveal_with_fuel(save_after, 5);
    reveal_with_fuel(written, 5);
    let a = answers;
    assert(a.drop_last().drop_last().drop_last().drop_last().len() == 0);
    assert(a.drop_last().drop_last().drop_last().last() == a[0]);
    assert(a.drop_last().drop_last().last() == a[1]);
    assert(a.drop_last().last() == a[2]);
    assert(a.last() == a[3]);
    assert(a.take(2) =~= a.drop_last().drop_last());
}

/// Settings that were saved are loaded again: given that the file still holds what was written,
/// and that decoding it gives back the settings that were encoded, a load after a save that
/// succeeded goes by those settings and has nothing to report. What it decodes is what the save
/// had written.
pub proof fn law_saved_settings_load_back(
    settings: Settings,
    answers: Seq<Result<Seq<char>, SaveFault>>,
    text: String,
    decoded: FileReading,
)
    requires
        answers.len() == 4,
        save_after(settings, answers).fault is None,
        Some(text@) == written(settings, answers),
        text@ == answers[2]->Ok_0 ==> decoded == FileReading::Read(settings),
    ensures
        ({
            let asked = load_begin().answered(LoadAnswer::Found).answered(LoadAnswer::Text(text));
            let run = asked.answered(LoadAnswer::Ended(decoded));
            &&& asked.due == LoadCallView::Decode(answers[2]->Ok_0)
            &&& run.due is Nothing
            &&& loaded(run.reading) == (settings, None::<Seq<char>>)
        }),
{
    law_save_writes_the_settings(settings, answers);
}

/// Whatever stands in the way of reading the file, the app goes by the defaults.
pub proof fn law_defaults_are_fallen_back_to(reading: FileReading)
    requires
        !(reading is Read),
    ensures
        loaded(reading).0 == default_settings(),
        loaded(reading).1 is Some <==> reading is Corrupt,
{
}

} // verus!
