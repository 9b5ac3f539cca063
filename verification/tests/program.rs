use frogsay::errors::ErrorKind;
use frogsay::pond::{Pond, ReservoirMode};
use frogsay::private_path;
use frogsay::program::{
    error_message, exit_code, lament, lament_with_width, select, usage_brief, Flags, Selection,
};
use frogsay::tips::{Croak, Tip};

const BELOW: &str = "\n        /\n  @..@\n (----)\n( >__< )\n^^ ~~ ^^";

fn flags(help: bool, version: bool, essential: bool) -> Flags {
    Flags { help, version, essential }
}

#[test]
fn unreadable_command_line_asks_for_usage() {
    assert_eq!(select(None), Selection::Usage);
}

#[test]
fn help_goes_before_all_else() {
    for version in [false, true] {
        for essential in [false, true] {
            assert_eq!(select(Some(flags(true, version, essential))), Selection::Usage);
        }
    }
}

#[test]
fn version_goes_before_a_tip() {
    assert_eq!(select(Some(flags(false, true, false))), Selection::Version);
    assert_eq!(select(Some(flags(false, true, true))), Selection::Version);
}

#[test]
fn essential_flag_selects_the_bundled_tips() {
    match select(Some(flags(false, false, true))) {
        Selection::Say(pond) => {
            assert_eq!(pond.mode(), ReservoirMode::EssentialCache);
            assert_eq!(pond.stock(), &None);
        }
        other => panic!("selected {:?}", other),
    }
}

#[test]
fn no_flag_selects_the_cache() {
    assert_eq!(select(Some(flags(false, false, false))), Selection::Say(Pond::with_cache()));
}

#[test]
fn exit_codes_are_one_for_usage_zero_for_version() {
    for failed in [false, true] {
        assert_eq!(exit_code(&Selection::Usage, failed), 1);
        assert_eq!(exit_code(&Selection::Version, failed), 0);
    }
}

#[test]
fn exit_code_after_a_tip_tells_failure() {
    assert_eq!(exit_code(&Selection::Say(Pond::with_cache()), false), 0);
    assert_eq!(exit_code(&Selection::Say(Pond::with_cache()), true), 2);
    assert_eq!(exit_code(&Selection::Say(Pond::with_essential_tips()), true), 2);
}

#[test]
fn usage_names_the_program() {
    let brief = usage_brief("frogsay");
    assert!(brief.starts_with(
        "FROGSAY IS A PROGRAM THAT GENERATES AN ASCII PICTURE OF A FROG SPOUTING A FROG TIP.\n\nUSAGE: frogsay [OPTIONS]\n\nFROG TIPS ARE FETCHED FROM HTTPS://FROG.TIPS'S API ENDPOINT."
    ));
    assert!(brief.ends_with("SUCH AS DATA CENTERS AND SPACECRAFT."));
    assert_eq!(usage_brief("a").len() + 2, usage_brief("abc").len());
}

#[test]
fn errors_describe_themselves() {
    assert_eq!(ErrorKind::CacheNotCreated.description(), "the cache could not be created");
    assert_eq!(ErrorKind::CacheNotUpdated.description(), "the cache could not be updated");
    assert_eq!(ErrorKind::NoTips.description(), "no tips were available");
    assert_eq!(ErrorKind::NoEssentialTips.description(), "essential tips were not available");
    assert_eq!(ErrorKind::Msg("Cannot make request".to_string()).description(), "Cannot make request");
    assert_eq!(
        ErrorKind::PrivatePath(private_path::ErrorKind::NoHomeDir).description(),
        "no home directory could be found"
    );
    assert_eq!(
        ErrorKind::PrivatePath(private_path::ErrorKind::BadHomeDirEncoding).description(),
        "the path to the home directory has an unknown encoding"
    );
    assert_eq!(
        ErrorKind::PrivatePath(private_path::ErrorKind::PrivatePathNotCreated).description(),
        "this application's local storage path could not be created"
    );
}

#[test]
fn error_kinds_are_told_apart() {
    let kinds = [
        ErrorKind::Msg("x".to_string()),
        ErrorKind::PrivatePath(private_path::ErrorKind::NoHomeDir),
        ErrorKind::PrivatePath(private_path::ErrorKind::BadHomeDirEncoding),
        ErrorKind::PrivatePath(private_path::ErrorKind::PrivatePathNotCreated),
        ErrorKind::CacheNotCreated,
        ErrorKind::CacheNotUpdated,
        ErrorKind::NoTips,
        ErrorKind::NoEssentialTips,
    ];
    for (i, a) in kinds.iter().enumerate() {
        for (j, b) in kinds.iter().enumerate() {
            assert_eq!(a == b, i == j);
        }
    }
}

#[test]
fn error_message_is_upper_case() {
    assert_eq!(error_message(&ErrorKind::NoTips), "ERROR: NO TIPS WERE AVAILABLE");
    assert_eq!(
        error_message(&ErrorKind::Msg("Cannot make request".to_string())),
        "ERROR: CANNOT MAKE REQUEST"
    );
    assert_eq!(
        error_message(&ErrorKind::PrivatePath(private_path::ErrorKind::PrivatePathNotCreated)),
        "ERROR: THIS APPLICATION'S LOCAL STORAGE PATH COULD NOT BE CREATED"
    );
}

#[test]
fn frog_laments_the_failure() {
    assert_eq!(
        lament_with_width(&ErrorKind::CacheNotUpdated, 80),
        format!("\n        ERROR: THE CACHE COULD NOT BE UPDATED{}", BELOW)
    );
    assert_eq!(
        lament_with_width(&ErrorKind::NoEssentialTips, 30),
        format!("\n        ERROR: ESSENTIAL TIPS\n        WERE NOT AVAILABLE{}", BELOW)
    );
}

#[test]
fn lament_is_the_message_at_some_width() {
    let lamented = lament(&ErrorKind::NoTips);
    assert!(lamented.starts_with('\n'));
    assert!(lamented.ends_with(BELOW));
    let words: Vec<&str> = lamented[..lamented.len() - BELOW.len()].split_whitespace().collect();
    assert_eq!(words.concat(), "ERROR:NOTIPSWEREAVAILABLE");
}

#[test]
fn tip_clone_is_equal() {
    let tip = Tip { number: 1234, tip: "DO NOT LICK FROG.".to_string() };
    let copy = tip.clone();
    assert_eq!(copy, tip);
    assert_eq!(copy.number, 1234);
    assert_eq!(copy.tip, "DO NOT LICK FROG.");
}

#[test]
fn croak_holds_its_tips_in_order() {
    let croak = Croak {
        tips: vec![Tip { number: 1, tip: "a".to_string() }, Tip { number: 2, tip: "b".to_string() }],
    };
    assert_eq!(croak.tips.len(), 2);
    assert_eq!(croak.tips[0].number, 1);
    assert_eq!(croak.tips[1].tip, "b");
}
