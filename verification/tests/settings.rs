//! Persisted settings.

use awake_core::settings::{
    FileReading, LoadAnswer, LoadCall, SaveCall, SaveFault, Settings, FILE_NAME,
};

#[test]
fn defaults_keep_the_display_on_indefinitely() {
    let s = Settings::default();
    assert!(s.keep_display);
    assert_eq!(s.default_duration_secs, None);
}

/// A settings file in memory. The text form stands in for JSON.
#[derive(Default)]
struct Disk {
    no_directory: bool,
    made: bool,
    full: bool,
    text: Option<String>,
}

fn encode(settings: Settings) -> String {
    format!("{} {:?}", settings.keep_display, settings.default_duration_secs)
}

fn decode(text: &str) -> Option<Settings> {
    for keep_display in [false, true] {
        for default_duration_secs in [None, Some(0), Some(1800)] {
            let settings = Settings { keep_display, default_duration_secs };
            if encode(settings) == text {
                return Some(settings);
            }
        }
    }
    None
}

fn save(disk: &mut Disk, settings: Settings) -> Result<(), String> {
    let mut run = settings.save();
    loop {
        let answer = match run.next() {
            SaveCall::Resolve if disk.no_directory => Err(SaveFault::NoDirectory),
            SaveCall::Resolve => Ok(String::new()),
            SaveCall::MakeDirectory => {
                disk.made = true;
                Ok(String::new())
            }
            SaveCall::Encode(settings) => Ok(encode(settings)),
            SaveCall::Write(_) if disk.full => Err(SaveFault::Write {
                path: "/cfg/settings.json".to_string(),
                err: "full".to_string(),
            }),
            SaveCall::Write(text) => {
                disk.text = Some(text);
                Ok(String::new())
            }
            SaveCall::Nothing => return run.finish(),
        };
        run.answered(answer);
    }
}

fn load(disk: &Disk) -> (Settings, Option<String>) {
    let mut run = Settings::load();
    loop {
        let answer = match run.next() {
            LoadCall::Resolve if disk.no_directory => LoadAnswer::Ended(FileReading::NoDirectory),
            LoadCall::Resolve => LoadAnswer::Found,
            LoadCall::Read => match &disk.text {
                Some(text) => LoadAnswer::Text(text.clone()),
                None => LoadAnswer::Ended(FileReading::Unreadable),
            },
            LoadCall::Decode(text) => LoadAnswer::Ended(match decode(&text) {
                Some(settings) => FileReading::Read(settings),
                None => FileReading::Corrupt {
                    path: "/cfg/settings.json".to_string(),
                    err: "expected value at line 1 column 1".to_string(),
                },
            }),
            LoadCall::Nothing => return run.finish(),
        };
        run.answered(answer);
    }
}

#[test]
fn what_cannot_be_read_falls_back_to_defaults() {
    assert_eq!(FILE_NAME, "settings.json");
    let nowhere = Disk { no_directory: true, ..Disk::default() };
    assert_eq!(load(&nowhere), (Settings::default(), None));
    assert_eq!(load(&Disk::default()), (Settings::default(), None));

    let corrupt = Disk { text: Some("{".to_string()), ..Disk::default() };
    let (settings, line) = load(&corrupt);
    assert_eq!(settings, Settings::default());
    assert_eq!(
        line.unwrap(),
        "no-afk: ignoring unreadable /cfg/settings.json: expected value at line 1 column 1"
    );
}

#[test]
fn saved_settings_load_back() {
    let mut disk = Disk { text: Some("{".to_string()), ..Disk::default() };
    let stored = Settings { keep_display: false, default_duration_secs: Some(1800) };
    assert_eq!(save(&mut disk, stored), Ok(()));
    assert!(disk.made, "the directory is made on the way");
    assert_eq!(load(&disk), (stored, None));

    disk.full = true;
    assert!(save(&mut disk, Settings::default()).is_err());
    assert_eq!(load(&disk), (stored, None), "a save that fails leaves the file alone");
}

fn fault_at(step: usize, fault: SaveFault) -> Result<(), String> {
    let mut run = Settings::default().save();
    for _ in 0..step {
        run.answered(Ok("{}".to_string()));
    }
    run.answered(Err(fault));
    assert_eq!(run.next(), SaveCall::Nothing, "the first fault ends it");
    run.answered(Ok("{}".to_string()));
    run.finish()
}

#[test]
fn a_fault_in_saving_says_where() {
    assert_eq!(
        fault_at(0, SaveFault::NoDirectory),
        Err("could not resolve the config directory".to_string())
    );
    assert_eq!(
        fault_at(
            1,
            SaveFault::Directory { dir: "/cfg".to_string(), err: "denied".to_string() }
        ),
        Err("/cfg: denied".to_string())
    );
    assert_eq!(
        fault_at(2, SaveFault::Encoding { err: "odd".to_string() }),
        Err("odd".to_string())
    );
    assert_eq!(
        fault_at(
            3,
            SaveFault::Write { path: "/cfg/settings.json".to_string(), err: "full".to_string() }
        ),
        Err("/cfg/settings.json: full".to_string())
    );
}
