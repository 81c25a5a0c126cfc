use update_informer::check::{conclude, Action, Event, Phase};
use update_informer::error::{CheckError, IoError, IoErrorKind, TransportError, TransportErrorKind};
use update_informer::registry::Crates;
use update_informer::time::Duration;
use update_informer::version::ParseError;
use update_informer::version_file::Probe;
use update_informer::{Check, Package, UpdateInformer, Version};

const PKG_NAME: &str = "repo";
const CURRENT_VERSION: &str = "3.1.0";
const LATEST_VERSION: &str = "3.1.1";

/// A cache file and a registry, both in memory.
struct World {
    /// What the file holds and how old it is, where there is one.
    file: Option<(String, Duration)>,
    registry: Result<Option<String>, TransportError>,
    /// The questions that the registry was asked.
    asked: Vec<(Package, Duration)>,
    /// The actions on the file, in order.
    touched: Vec<String>,
    /// The action on the file that is made to fail.
    broken: Option<&'static str>,
}

impl World {
    fn new(file: Option<&str>, age_secs: u64, registry: Option<&str>) -> World {
        World {
            file: file.map(|text| (text.to_string(), Duration::from_secs(age_secs))),
            registry: Ok(registry.map(|v| v.to_string())),
            asked: Vec::new(),
            touched: Vec::new(),
            broken: None,
        }
    }

    fn content(&self) -> Option<&str> {
        self.file.as_ref().map(|(text, _)| text.as_str())
    }

    fn denied() -> IoError {
        IoError { kind: IoErrorKind::Other, message: "permission denied".to_string() }
    }

    fn missing() -> IoError {
        IoError { kind: IoErrorKind::NotFound, message: "no such file".to_string() }
    }

    fn perform(&mut self, action: Action) -> Result<Event, Result<Option<Version>, CheckError>> {
        Ok(match action {
            Action::Probe => {
                self.touched.push("probe".to_string());
                if self.broken == Some("probe") {
                    Event::Probed(Probe::Failed(World::denied()))
                } else {
                    match &self.file {
                        Some((_, age)) => Event::Probed(Probe::Aged(*age)),
                        None => Event::Probed(Probe::Failed(World::missing())),
                    }
                }
            },
            Action::Write(text) => {
                self.touched.push(format!("write {}", text));
                if self.broken == Some("write") {
                    Event::Written(Err(World::denied()))
                } else {
                    self.file = Some((text, Duration::zero()));
                    Event::Written(Ok(()))
                }
            },
            Action::Remove => {
                self.touched.push("remove".to_string());
                if self.broken == Some("remove") {
                    Event::Removed(Err(World::denied()))
                } else {
                    self.file = None;
                    Event::Removed(Ok(()))
                }
            },
            Action::Load => {
                self.touched.push("load".to_string());
                if self.broken == Some("load") {
                    Event::Loaded(Err(World::denied()))
                } else {
                    match &self.file {
                        Some((text, _)) => Event::Loaded(Ok(text.clone())),
                        None => Event::Loaded(Err(World::missing())),
                    }
                }
            },
            Action::Ask { package, timeout } => {
                self.asked.push((package, timeout));
                Event::Answered(self.registry.clone())
            },
            Action::Finish(verdict) => return Err(verdict),
        })
    }
}

fn check<R>(informer: &UpdateInformer<R>, world: &mut World) -> Result<Option<Version>, CheckError> {
    let (mut phase, mut action) = informer.begin();
    for _ in 0..6 {
        let event = match world.perform(action) {
            Ok(event) => event,
            Err(verdict) => return verdict,
        };
        let next = informer.advance(phase, event);
        phase = next.0;
        action = next.1;
    }
    match action {
        Action::Finish(verdict) => verdict,
        other => panic!("the check did not end: {:?}", other),
    }
}

fn version(text: &str) -> Version {
    Version::parse(text).expect("parse version")
}

#[test]
fn no_new_version_with_interval_test() {
    let mut world = World::new(None, 0, Some(LATEST_VERSION));
    let informer = update_informer::new(Crates, PKG_NAME, CURRENT_VERSION);
    let result = check(&informer, &mut world);

    assert!(result.is_ok());
    assert_eq!(result.unwrap(), None);
    assert!(world.asked.is_empty());
}

#[test]
fn no_new_version_on_registry_test() {
    let mut world = World::new(None, 0, Some(LATEST_VERSION));
    let informer = update_informer::new(Crates, PKG_NAME, LATEST_VERSION).interval(Duration::zero());
    let result = check(&informer, &mut world);

    assert!(result.is_ok());
    assert_eq!(result.unwrap(), None);
    assert_eq!(world.asked.len(), 1);
}

#[test]
fn check_version_on_crates_test() {
    let mut world = World::new(None, 0, Some(LATEST_VERSION));
    let informer = update_informer::new(Crates, PKG_NAME, CURRENT_VERSION).interval(Duration::zero());
    let result = check(&informer, &mut world);
    let version = Version::parse(LATEST_VERSION).expect("parse version");

    assert!(result.is_ok());
    assert_eq!(result.unwrap(), Some(version));
}

#[test]
fn return_version_from_file_test() {
    let mut world = World::new(Some("4.0.0"), 0, Some(LATEST_VERSION));

    let informer = update_informer::new(Crates, PKG_NAME, CURRENT_VERSION);
    let result = check(&informer, &mut world);
    let version = Version::parse("4.0.0").expect("parse version");

    assert!(result.is_ok());
    assert_eq!(result.unwrap(), Some(version));
    assert!(world.asked.is_empty());
    assert_eq!(world.touched, ["probe", "load"]);
    assert_eq!(world.content(), Some("4.0.0"));
}

#[test]
fn create_version_file_test() {
    let mut world = World::new(None, 0, Some(LATEST_VERSION));
    assert!(world.file.is_none());

    let informer = update_informer::new(Crates, PKG_NAME, CURRENT_VERSION);
    let result = check(&informer, &mut world);
    assert!(result.is_ok());
    assert!(world.file.is_some());

    assert_eq!(world.content(), Some(CURRENT_VERSION));
    assert_eq!(world.touched, ["probe", "write 3.1.0", "load"]);
}

#[test]
fn do_not_create_version_file_test() {
    let mut world = World::new(None, 0, Some(LATEST_VERSION));
    assert!(world.file.is_none());

    let informer = update_informer::new(Crates, PKG_NAME, CURRENT_VERSION).interval(Duration::zero());
    let result = check(&informer, &mut world);

    assert!(result.is_ok());
    assert!(world.file.is_none());
    assert!(world.touched.is_empty());
}

#[test]
fn check_version_with_string_name_test() {
    let mut world = World::new(None, 0, Some(LATEST_VERSION));
    let pkg_name = format!("{}/{}", "owner", PKG_NAME);
    let informer = update_informer::new(Crates, &pkg_name, CURRENT_VERSION);
    let result = check(&informer, &mut world);

    assert!(result.is_ok());
    assert_eq!(informer.cache_file("/home/me").file_name, ".owner-repo-latest-version");
}

#[test]
fn check_version_with_string_version_test() {
    let mut world = World::new(None, 0, Some(LATEST_VERSION));
    let version = String::from(CURRENT_VERSION);
    let informer = update_informer::new(Crates, PKG_NAME, &version);
    let result = check(&informer, &mut world);

    assert!(result.is_ok());
}

#[test]
fn check_version_with_amp_string_test() {
    let mut world = World::new(None, 0, Some(LATEST_VERSION));
    let pkg_name = format!("{}/{}", "owner", PKG_NAME);
    let version = String::from(CURRENT_VERSION);
    let informer = update_informer::new(Crates, &pkg_name, &version);
    let result = check(&informer, &mut world);

    assert!(result.is_ok());
}

#[test]
fn fake_check_version_test() {
    let version = "1.0.0";
    let informer = update_informer::fake(Crates, PKG_NAME, CURRENT_VERSION, version)
        .interval(Duration::zero())
        .timeout(Duration::zero());
    let result = informer.check_version();
    let version = Version::parse(version).expect("parse version");

    assert!(result.is_ok());
    assert_eq!(result.unwrap(), Some(version));
}

#[test]
fn fake_with_no_version_fails() {
    let informer = update_informer::FakeUpdateInformer::new(Crates, PKG_NAME, CURRENT_VERSION, "soon");
    assert_eq!(
        informer.check_version(),
        Err(CheckError::Parse(ParseError { text: "soon".to_string() }))
    );
}

#[test]
fn last_modified_file_not_exists_test() {
    let mut world = World::new(None, 0, None);
    let informer = update_informer::new(Crates, PKG_NAME, "0.1.0");

    let (phase, action) = informer.begin();
    assert_eq!(action, Action::Probe);
    let event = world.perform(action).unwrap();
    let (phase, action) = informer.advance(phase, event);
    assert_eq!(phase, Phase::Seeding);
    assert_eq!(action, Action::Write("0.1.0".to_string()));
    let event = world.perform(action).unwrap();
    let (phase, action) = informer.advance(phase, event);
    assert_eq!(phase, Phase::Loading);
    assert_eq!(action, Action::Load);

    assert_eq!(world.content(), Some("0.1.0"));
}

#[test]
fn last_modified_file_exists_test() {
    let informer = update_informer::new(Crates, PKG_NAME, "0.1.0");
    let (phase, _) = informer.begin();
    let age = Duration::new(0, 1_000).unwrap();
    assert!(!age.is_zero());
    let (phase, action) = informer.advance(phase, Event::Probed(Probe::Aged(age)));
    assert_eq!(phase, Phase::Loading);
    assert_eq!(action, Action::Load);
}

#[test]
fn recreate_file_test() {
    let mut world = World::new(Some("0.1.0"), 86_400, None);
    world.registry = Err(TransportError {
        kind: TransportErrorKind::Status(404),
        message: String::new(),
    });
    let informer = update_informer::new(Crates, PKG_NAME, "1.0.0");

    let result = check(&informer, &mut world);
    assert!(result.is_err());

    assert_eq!(world.content(), Some("1.0.0"));
    assert_eq!(world.touched, ["probe", "remove", "write 1.0.0"]);
}

#[test]
fn write_version_test() {
    let mut world = World::new(Some("1.0.0"), 86_400, Some("2.0.0"));
    let informer = update_informer::new(Crates, PKG_NAME, "1.0.0");

    let result = check(&informer, &mut world);
    assert!(result.is_ok());

    assert_eq!(world.content(), Some("2.0.0"));
}

#[test]
fn get_version_file_exists_test() {
    let mut world = World::new(Some("1.0.0"), 10, None);
    let informer = update_informer::new(Crates, PKG_NAME, "1.0.0");

    let result = check(&informer, &mut world);
    assert!(result.is_ok());

    assert_eq!(world.content(), Some("1.0.0"));
}

#[test]
fn get_version_file_not_exists_test() {
    let informer = update_informer::new(Crates, PKG_NAME, "1.0.0");
    let (phase, action) =
        informer.advance(Phase::Loading, Event::Loaded(Err(World::missing())));

    assert_eq!(phase, Phase::Finished);
    assert_eq!(action, Action::Finish(Err(CheckError::Io(World::missing()))));
}

#[test]
fn stale_cache_asks_and_stores_the_answer() {
    let mut world = World::new(Some("3.0.0"), 86_400, Some(LATEST_VERSION));
    let informer = update_informer::new(Crates, PKG_NAME, CURRENT_VERSION);
    let result = check(&informer, &mut world);

    assert_eq!(result, Ok(Some(version(LATEST_VERSION))));
    assert_eq!(world.content(), Some(LATEST_VERSION));
    assert_eq!(world.touched, ["probe", "remove", "write 3.1.0", "write 3.1.1"]);
    assert_eq!(world.asked, [(Package::new(PKG_NAME), Duration::from_secs(5))]);
}

#[test]
fn stale_cache_with_the_same_version_reports_nothing() {
    let mut world = World::new(Some("3.0.0"), 100_000, Some(LATEST_VERSION));
    let informer = update_informer::new(Crates, PKG_NAME, LATEST_VERSION);
    let result = check(&informer, &mut world);

    assert_eq!(result, Ok(None));
    assert_eq!(world.content(), Some(LATEST_VERSION));
}

#[test]
fn interval_decides_when_the_cache_is_stale() {
    let hour = Duration::from_secs(3_600);
    let mut world = World::new(Some("4.0.0"), 3_599, Some("5.0.0"));
    let informer = update_informer::new(Crates, PKG_NAME, CURRENT_VERSION).interval(hour);
    assert_eq!(check(&informer, &mut world), Ok(Some(version("4.0.0"))));
    assert!(world.asked.is_empty());

    let mut world = World::new(Some("4.0.0"), 3_600, Some("5.0.0"));
    assert_eq!(check(&informer, &mut world), Ok(Some(version("5.0.0"))));
    assert_eq!(world.asked.len(), 1);
}

#[test]
fn timeout_goes_to_the_registry() {
    let mut world = World::new(None, 0, Some(LATEST_VERSION));
    let informer = update_informer::new(Crates, "owner/repo", CURRENT_VERSION)
        .interval(Duration::zero())
        .timeout(Duration::from_secs(30));
    assert_eq!(check(&informer, &mut world), Ok(Some(version(LATEST_VERSION))));
    assert_eq!(world.asked, [(Package::new("owner/repo"), Duration::from_secs(30))]);
    assert_eq!(informer.timeout_length(), Duration::from_secs(30));
    assert_eq!(informer.interval_length(), Duration::zero());
    assert_eq!(informer.current_version(), CURRENT_VERSION);
    assert_eq!(*informer.registry(), Crates);
}

#[test]
fn defaults_are_a_day_and_five_seconds() {
    let informer = UpdateInformer::new(Crates, PKG_NAME, CURRENT_VERSION);
    assert_eq!(informer.interval_length(), Duration::from_secs(60 * 60 * 24));
    assert_eq!(informer.timeout_length(), Duration::from_secs(5));
    assert_eq!(informer.package(), Package::new(PKG_NAME));
}

#[test]
fn registry_without_releases_reports_nothing() {
    let mut world = World::new(None, 0, None);
    let informer = update_informer::new(Crates, PKG_NAME, CURRENT_VERSION).interval(Duration::zero());
    assert_eq!(check(&informer, &mut world), Ok(None));

    let mut world = World::new(Some("3.0.0"), 86_400, None);
    let informer = update_informer::new(Crates, PKG_NAME, CURRENT_VERSION);
    assert_eq!(check(&informer, &mut world), Ok(None));
    assert_eq!(world.content(), Some(CURRENT_VERSION));
}

#[test]
fn registry_failure_is_surfaced_and_nothing_is_written_after_it() {
    let failure = TransportError { kind: TransportErrorKind::Status(500), message: String::new() };

    let mut world = World::new(None, 0, None);
    world.registry = Err(failure.clone());
    let informer = update_informer::new(Crates, PKG_NAME, CURRENT_VERSION).interval(Duration::zero());
    assert_eq!(check(&informer, &mut world), Err(CheckError::Transport(failure.clone())));
    assert!(world.touched.is_empty());
    assert!(world.file.is_none());

    let mut world = World::new(Some("2.0.0"), 90_000, None);
    world.registry = Err(failure.clone());
    let informer = update_informer::new(Crates, PKG_NAME, CURRENT_VERSION);
    assert_eq!(check(&informer, &mut world), Err(CheckError::Transport(failure)));
    assert_eq!(world.touched, ["probe", "remove", "write 3.1.0"]);
    assert_eq!(world.file, Some((CURRENT_VERSION.to_string(), Duration::zero())));
}

#[test]
fn file_failures_are_surfaced() {
    let informer = update_informer::new(Crates, PKG_NAME, CURRENT_VERSION);
    for (broken, file, age, touched) in [
        ("probe", Some("4.0.0"), 0u64, vec!["probe"]),
        ("write", None, 0, vec!["probe", "write 3.1.0"]),
        ("load", Some("4.0.0"), 0, vec!["probe", "load"]),
        ("remove", Some("4.0.0"), 86_400, vec!["probe", "remove"]),
        ("write", Some("4.0.0"), 86_400, vec!["probe", "remove", "write 3.1.0"]),
    ] {
        let mut world = World::new(file, age, Some(LATEST_VERSION));
        world.broken = Some(broken);
        assert_eq!(check(&informer, &mut world), Err(CheckError::Io(World::denied())));
        assert_eq!(world.touched, touched);
        assert!(world.asked.is_empty());
    }
}

#[test]
fn malformed_versions_are_surfaced() {
    let mut world = World::new(Some("latest"), 0, None);
    let informer = update_informer::new(Crates, PKG_NAME, CURRENT_VERSION);
    assert_eq!(
        check(&informer, &mut world),
        Err(CheckError::Parse(ParseError { text: "latest".to_string() }))
    );

    let mut world = World::new(None, 0, Some(LATEST_VERSION));
    let informer = update_informer::new(Crates, PKG_NAME, "current").interval(Duration::zero());
    assert_eq!(
        check(&informer, &mut world),
        Err(CheckError::Parse(ParseError { text: "current".to_string() }))
    );

    let mut world = World::new(None, 0, Some("newest"));
    assert_eq!(
        check(&informer, &mut world),
        Err(CheckError::Parse(ParseError { text: "newest".to_string() }))
    );
}

#[test]
fn conclude_names_a_newer_version_only() {
    assert_eq!(conclude("3.1.1", "3.1.0"), Ok(Some(version("3.1.1"))));
    assert_eq!(conclude("v3.1.1", "3.1.0"), Ok(Some(version("3.1.1"))));
    assert_eq!(conclude("3.1.1", "v3.1.1"), Ok(None));
    assert_eq!(conclude("3.1.0", "3.1.1"), Ok(None));
    assert_eq!(conclude("1.0.0", "1.0.0-rc.1"), Ok(Some(version("1.0.0"))));
    assert_eq!(conclude("1.0.0+b", "1.0.0+a"), Ok(None));
    let newer = conclude("v1.2.4-rc.1+x", "1.2.3").unwrap().unwrap();
    assert_eq!(newer.to_string(), "v1.2.4-rc.1+x");
}

#[test]
fn events_out_of_turn_end_the_check() {
    let informer = update_informer::new(Crates, PKG_NAME, CURRENT_VERSION);
    let out_of_turn = (Phase::Finished, Action::Finish(Err(CheckError::OutOfTurn)));
    assert_eq!(informer.advance(Phase::Idle, Event::Written(Ok(()))), out_of_turn);
    assert_eq!(informer.advance(Phase::Probing, Event::Begin), out_of_turn);
    assert_eq!(informer.advance(Phase::Finished, Event::Begin), out_of_turn);
    assert_eq!(informer.advance(Phase::Loading, Event::Answered(Ok(None))), out_of_turn);
    assert_eq!(
        informer.advance(Phase::Saving { latest: "1.0.0".to_string() }, Event::Removed(Ok(()))),
        out_of_turn
    );
}

#[test]
fn check_ends_within_six_events() {
    let mut world = World::new(Some("3.0.0"), 86_400, Some(LATEST_VERSION));
    let informer = update_informer::new(Crates, PKG_NAME, CURRENT_VERSION);
    let (mut phase, mut action) = informer.begin();
    let mut events = 1;
    while phase != Phase::Finished {
        let event = world.perform(action).unwrap();
        let next = informer.advance(phase, event);
        phase = next.0;
        action = next.1;
        events += 1;
    }
    assert_eq!(events, 6);
    assert_eq!(action, Action::Finish(Ok(Some(version(LATEST_VERSION)))));
}
