use yappyink::draw_args::{parse, parse_usize, DrawArgs};

fn args(list: &[&str]) -> Vec<String> {
    list.iter().map(|arg| (*arg).to_owned()).collect()
}

#[test]
fn nothing_means_the_primary() {
    assert_eq!(parse(&[]), Ok(DrawArgs::default()));
}

#[test]
fn a_monitor_can_be_given_either_way() {
    let want = Ok(DrawArgs { monitor: Some(2) });
    assert_eq!(parse(&args(&["--monitor", "2"])), want);
    assert_eq!(parse(&args(&["--monitor=2"])), want);
}

#[test]
fn a_bad_monitor_is_refused_rather_than_ignored() {
    for bad in [
        &["--monitor"][..],
        &["--monitor", "0"],
        &["--monitor", "two"],
        &["--monitor=-1"],
        &["--moniter", "2"],
        &["2"],
    ] {
        assert!(parse(&args(bad)).is_err(), "{bad:?} was accepted");
    }
}

#[test]
fn each_refusal_says_what_was_wrong() {
    assert_eq!(
        parse(&args(&["--monitor"])),
        Err("--monitor needs a number, such as --monitor 2".to_owned())
    );
    assert_eq!(
        parse(&args(&["--monitor", "two"])),
        Err("--monitor takes a number from 1, not \"two\"".to_owned())
    );
    assert_eq!(
        parse(&args(&["--moniter", "2"])),
        Err("draw does not take \"--moniter\"".to_owned())
    );
}

#[test]
fn the_last_monitor_given_wins() {
    assert_eq!(
        parse(&args(&["--monitor", "1", "--monitor=3"])),
        Ok(DrawArgs { monitor: Some(3) })
    );
}

#[test]
fn numbers_are_read_as_usize_reads_them() {
    assert_eq!(parse_usize("+7"), Some(7));
    assert_eq!(parse_usize("007"), Some(7));
    assert_eq!(parse_usize("+"), None);
    assert_eq!(parse_usize(""), None);
    assert_eq!(parse_usize("-0"), None);
    assert_eq!(parse_usize(" 1"), None);
    assert_eq!(parse_usize("18446744073709551615"), "18446744073709551615".parse::<usize>().ok());
    assert_eq!(parse_usize("99999999999999999999999"), None);
}
