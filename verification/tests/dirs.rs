use datesort::{get_output_dir, join_under, Config, DateTime, Language};

fn dt(year: i32, month: u8, day: u8, hour: u8, minute: u8, second: u8) -> DateTime {
    DateTime { year, month, day, hour, minute, second }
}

fn config() -> Config {
    Config {
        input: String::new(),
        output: String::new(),
        verbose: false,
        name: true,
        meta: true,
        clean: false,
        min_year: 1950,
        year: false,
        month: Language::NoLanguage,
        flat: false,
    }
}

#[test]
fn plain_layout() {
    let d = dt(1959, 3, 12, 0, 0, 1);
    assert_eq!(get_output_dir(&config(), &d), "1959/03");
}

#[test]
fn plain_layout_full_destination() {
    let d = dt(1959, 3, 12, 0, 0, 1);
    let dir = get_output_dir(&config(), &d);
    assert_eq!(join_under(&dir, "1959-03-12.txt"), "1959/03/1959-03-12.txt");
}

#[test]
fn year_layout_with_english_month() {
    let mut cfg = config();
    cfg.year = true;
    cfg.month = Language::English;
    let d = dt(1959, 3, 12, 0, 0, 1);
    let dir = get_output_dir(&cfg, &d);
    assert_eq!(dir, "1959/1959 03 March");
    assert_eq!(join_under(&dir, "1959-03-12.txt"), "1959/1959 03 March/1959-03-12.txt");
}

#[test]
fn year_layout_without_language() {
    let mut cfg = config();
    cfg.year = true;
    assert_eq!(get_output_dir(&cfg, &dt(1959, 3, 12, 0, 0, 1)), "1959/1959 03");
}

#[test]
fn flat_layout() {
    let mut cfg = config();
    cfg.flat = true;
    assert_eq!(get_output_dir(&cfg, &dt(1959, 3, 12, 0, 0, 1)), "1959 03");
}

#[test]
fn flat_layout_with_swedish_month() {
    let mut cfg = config();
    cfg.flat = true;
    cfg.month = Language::Swedish;
    assert_eq!(get_output_dir(&cfg, &dt(1959, 3, 12, 0, 0, 1)), "1959 03 Mars");
}

#[test]
fn plain_layout_with_swedish_month() {
    let mut cfg = config();
    cfg.month = Language::Swedish;
    assert_eq!(get_output_dir(&cfg, &dt(1959, 5, 1, 0, 0, 1)), "1959/05 Maj");
}

#[test]
fn english_month_names_sample() {
    let mut cfg = config();
    cfg.month = Language::English;
    assert_eq!(get_output_dir(&cfg, &dt(2000, 1, 1, 0, 0, 1)), "2000/01 January");
    assert_eq!(get_output_dir(&cfg, &dt(2000, 9, 1, 0, 0, 1)), "2000/09 September");
    assert_eq!(get_output_dir(&cfg, &dt(2000, 12, 1, 0, 0, 1)), "2000/12 December");
}

#[test]
fn year_is_zero_padded_to_four() {
    assert_eq!(get_output_dir(&config(), &dt(800, 1, 2, 0, 0, 1)), "0800/01");
    assert_eq!(get_output_dir(&config(), &dt(33, 11, 2, 0, 0, 1)), "0033/11");
    assert_eq!(get_output_dir(&config(), &dt(0, 6, 2, 0, 0, 1)), "0000/06");
}

#[test]
fn wide_year_keeps_all_digits() {
    assert_eq!(get_output_dir(&config(), &dt(12345, 11, 1, 0, 0, 1)), "12345/11");
}

#[test]
fn negative_year_counts_the_sign_in_the_width() {
    assert_eq!(get_output_dir(&config(), &dt(-5, 1, 1, 0, 0, 1)), "-005/01");
    assert_eq!(get_output_dir(&config(), &dt(-12345, 1, 1, 0, 0, 1)), "-12345/01");
}
