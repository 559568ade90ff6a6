use verne::Command;
use verne::ParseError;
use verne::Resource;
use verne::Verne;
use verne::command::Clean;
use verne::command::Create;
use verne::command::DriverChoice;
use verne::command::ParserChoice;
use verne::command::driver_choice;
use verne::command::parser_choice;
use verne::record::RecordedCall;
use verne::record::RecordingDriver;
use verne::yaml::YamlParser;

fn guest(name: &str, memory: u64, vcpus: u32) -> Resource {
    Resource::Guest { name: String::from(name), memory, vcpus }
}

const TWO_GUESTS: &str =
    "guest:\n  - name: a\n    memory: 512\n    vcpus: 1\n  - name: b\n    memory: 1024\n    vcpus: 2\n";

#[test]
fn create_applies_every_resource_in_order() {
    let parser = YamlParser { template: String::from(TWO_GUESTS) };
    let mut verne = Verne::new(RecordingDriver::new(), parser);
    assert_eq!(verne.create(), Ok(()));
    assert_eq!(
        verne.driver().calls,
        vec![
            RecordedCall::Open,
            RecordedCall::Create(guest("a", 512, 1)),
            RecordedCall::Create(guest("b", 1024, 2)),
            RecordedCall::Close,
        ],
    );
}

#[test]
fn clean_without_create_still_completes() {
    let parser = YamlParser { template: String::from(TWO_GUESTS) };
    let mut verne = Verne::new(RecordingDriver::new(), parser);
    assert_eq!(verne.clean(), Ok(()));
    assert_eq!(
        verne.driver().calls,
        vec![
            RecordedCall::Open,
            RecordedCall::Clean(guest("a", 512, 1)),
            RecordedCall::Clean(guest("b", 1024, 2)),
            RecordedCall::Close,
        ],
    );
}

#[test]
fn each_pass_opens_and_closes_exactly_once() {
    let parser = YamlParser { template: String::from(TWO_GUESTS) };
    let mut verne = Verne::new(RecordingDriver::new(), parser);
    assert_eq!(verne.create(), Ok(()));
    assert_eq!(verne.clean(), Ok(()));
    let opens = verne.driver().calls.iter().filter(|c| **c == RecordedCall::Open).count();
    let closes = verne.driver().calls.iter().filter(|c| **c == RecordedCall::Close).count();
    assert_eq!(opens, 2);
    assert_eq!(closes, 2);
}

#[test]
fn parse_failure_leaves_the_driver_untouched() {
    let parser = YamlParser { template: String::from("guest:\n  - name: a\n    vcpus: 1\n") };
    let mut verne = Verne::new(RecordingDriver::new(), parser);
    assert_eq!(verne.create(), Err(ParseError::MissingField));
    assert_eq!(verne.driver().calls, Vec::new());
}

#[test]
fn commands_dispatch_to_the_matching_pass() {
    let parser = YamlParser { template: String::from("guest:\n  - name: a\n    memory: 512\n    vcpus: 1\n") };
    let mut verne = Verne::new(RecordingDriver::new(), parser);
    assert_eq!(Create::execute(&mut verne), Ok(()));
    assert_eq!(Clean::execute(&mut verne), Ok(()));
    assert_eq!(
        verne.driver().calls,
        vec![
            RecordedCall::Open,
            RecordedCall::Create(guest("a", 512, 1)),
            RecordedCall::Close,
            RecordedCall::Open,
            RecordedCall::Clean(guest("a", 512, 1)),
            RecordedCall::Close,
        ],
    );
}

/// A driver whose backend rejects every create: it reports the failure
/// (here: by remembering the attempt) and returns, as the driver contract
/// asks, so the batch never short-circuits.
struct RejectingDriver {
    attempted: Vec<String>,
    opens: usize,
    closes: usize,
}

impl verne::Driver for RejectingDriver {
    fn open(&mut self) {
        self.opens += 1;
    }

    fn close(&mut self) {
        self.closes += 1;
    }

    fn create(&mut self, resource: &Resource) {
        if let Resource::Guest { name, .. } = resource {
            self.attempted.push(name.clone());
        }
    }

    fn clean(&mut self, resource: &Resource) {
        if let Resource::Guest { name, .. } = resource {
            self.attempted.push(name.clone());
        }
    }
}

#[test]
fn failed_creates_do_not_short_circuit_the_batch() {
    let parser = YamlParser { template: String::from(TWO_GUESTS) };
    let driver = RejectingDriver { attempted: Vec::new(), opens: 0, closes: 0 };
    let mut verne = Verne::new(driver, parser);
    assert_eq!(verne.create(), Ok(()));
    assert_eq!(verne.driver().attempted, vec![String::from("a"), String::from("b")]);
    assert_eq!(verne.driver().opens, 1);
    assert_eq!(verne.driver().closes, 1);
}

#[test]
fn known_selectors_are_found() {
    assert_eq!(parser_choice("yaml"), Some(ParserChoice::Yaml));
    assert_eq!(driver_choice("libvirt"), Some(DriverChoice::Libvirt));
}

#[test]
fn bogus_selectors_are_fatal() {
    assert_eq!(parser_choice("bogus"), None);
    assert_eq!(driver_choice("bogus"), None);
}
