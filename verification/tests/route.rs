use yappyink::route::{route, Route};

fn args(list: &[&str]) -> Vec<String> {
    list.iter().map(|arg| (*arg).to_owned()).collect()
}

#[test]
fn no_arguments_draws() {
    let none: Vec<String> = Vec::new();
    assert_eq!(route(&none), Route::Draw(&[]));
}

#[test]
fn draw_keeps_its_own_arguments() {
    let given = args(&["draw", "--monitor", "2"]);
    assert_eq!(route(&given), Route::Draw(&given[1..]));
}

#[test]
fn help_is_a_request_not_an_error() {
    for word in ["help", "--help", "-h"] {
        assert_eq!(route(&args(&[word])), Route::Help, "{word}");
    }
}

#[test]
fn the_other_subcommands_are_unchanged() {
    assert_eq!(route(&args(&["doctor"])), Route::Doctor);
    assert_eq!(route(&args(&["version"])), Route::Version);
    assert_eq!(route(&args(&["--version"])), Route::Version);
}

#[test]
fn an_unknown_word_is_not_draw() {
    assert_eq!(route(&args(&["toggel-draw"])), Route::Other("toggel-draw"));
    assert_eq!(route(&args(&["--monitor", "2"])), Route::Other("--monitor"));
}

#[test]
fn only_the_first_word_routes() {
    assert_eq!(route(&args(&["-V", "draw"])), Route::Version);
    assert_eq!(route(&args(&["Draw"])), Route::Other("Draw"));
}
