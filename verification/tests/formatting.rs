// Reading typed parameter values: the number text left after the unit is cut.
use oasis::formatting::{
    cents_text, db_text, hz_text, ms_text, percentage_text, ratio_text, semitones_text, time_ms_text,
};

fn text(chars: Vec<char>) -> String {
    chars.into_iter().collect()
}

#[test]
fn percentage_number() {
    assert_eq!(text(percentage_text(" 42.5 % ")), "42.5");
    assert_eq!(text(percentage_text("50%%")), "50");
    assert_eq!(text(percentage_text("75")), "75");
    assert_eq!(text(percentage_text("  ")), "");
    assert_eq!(text(percentage_text("\u{3000}10%\t")), "10");
}

#[test]
fn db_number() {
    assert_eq!(text(db_text("-6.0 dB")), "-6.0");
    assert_eq!(text(db_text("-6dB")), "-6");
    assert_eq!(text(db_text("3 dB dB")), "3");
    assert_eq!(text(db_text(" 1.5 ")), "1.5");
}

#[test]
fn ms_number() {
    assert_eq!(text(ms_text("12.5 ms")), "12.5");
    assert_eq!(text(ms_text("12.5ms")), "12.5");
}

#[test]
fn semitone_and_cent_numbers() {
    assert_eq!(text(semitones_text("+7 st")), "+7");
    assert_eq!(text(semitones_text("-12st")), "-12");
    assert_eq!(text(cents_text("-25 ct")), "-25");
    assert_eq!(text(cents_text("40ct")), "40");
}

#[test]
fn ratio_number() {
    assert_eq!(text(ratio_text("4.0:1")), "4.0");
    assert_eq!(text(ratio_text(" 10 :1")), "10");
}

#[test]
fn time_number_is_not_trimmed_again() {
    assert_eq!(text(time_ms_text(" 250 ms ")), "250");
    assert_eq!(text(time_ms_text("250ms")), "250ms");
    assert_eq!(text(time_ms_text("250  ms")), "250 ");
}

#[test]
fn hz_numbers_and_units() {
    let (n, khz) = hz_text("2.50 kHz");
    assert_eq!((text(n), khz), ("2.50".to_string(), true));
    let (n, khz) = hz_text("2.5kHz");
    assert_eq!((text(n), khz), ("2.5".to_string(), true));
    let (n, khz) = hz_text("880.0 Hz");
    assert_eq!((text(n), khz), ("880.0".to_string(), false));
    let (n, khz) = hz_text(" 440 ");
    assert_eq!((text(n), khz), ("440".to_string(), false));
}

#[test]
fn read_back_numbers_parse() {
    let value: f32 = text(db_text(&format!("{:.1} dB", -3.25_f32))).parse().unwrap();
    assert!((value + 3.2).abs() < 1e-6 || (value + 3.3).abs() < 1e-6);
    let value: f32 = text(percentage_text(&format!("{:.1}%", 42.5_f32))).parse().unwrap();
    assert_eq!(value, 42.5);
}

#[test]
fn displayed_values_read_back() {
    assert_eq!(text(db_text("-6.0 dB")), "-6.0");
    assert_eq!(text(ms_text("12.5 ms")), "12.5");
    assert_eq!(text(semitones_text("+12 st")), "+12");
    assert_eq!(text(cents_text("-50 ct")), "-50");
    assert_eq!(text(percentage_text("-35%")), "-35");
    assert_eq!(text(ratio_text("2.5:1")), "2.5");
    assert_eq!(text(time_ms_text("250.0 ms")), "250.0");
    let (n, khz) = hz_text("12.00 kHz");
    assert_eq!((text(n), khz), ("12.00".to_string(), true));
    let (n, khz) = hz_text("80.0 Hz");
    assert_eq!((text(n), khz), ("80.0".to_string(), false));
}
