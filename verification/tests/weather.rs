use pippo::weather::{read_weather, report_from, WeatherError, WeatherReport};

const ANSWER: &str = "{\"location\":{\"name\":\"Pune\"},\"current\":{\"temp_c\":23.4,\"condition\":{\"text\":\"Partly cloudy\",\"code\":1003},\"humidity\":65}}";

#[test]
fn report_is_read_from_the_answer_of_the_service() {
    assert_eq!(
        read_weather(ANSWER, "23.4"),
        Ok(WeatherReport {
            temperature: "23.4".to_string(),
            condition: "Partly cloudy".to_string(),
            humidity: 65,
        })
    );
}

#[test]
fn missing_fields_get_their_defaults() {
    assert_eq!(
        read_weather("{\"current\":{\"temp_c\":1.5}}", "1.5"),
        Ok(WeatherReport {
            temperature: "1.5".to_string(),
            condition: "Unknown".to_string(),
            humidity: 0,
        })
    );
    assert_eq!(
        read_weather("{}", "x"),
        Ok(WeatherReport {
            temperature: "x".to_string(),
            condition: "Unknown".to_string(),
            humidity: 0,
        })
    );
    assert_eq!(
        read_weather("[1,2,3]", ""),
        Ok(WeatherReport {
            temperature: "".to_string(),
            condition: "Unknown".to_string(),
            humidity: 0,
        })
    );
}

#[test]
fn fields_of_another_kind_get_their_defaults() {
    assert_eq!(
        read_weather(
            "{\"current\":{\"condition\":{\"text\":7},\"humidity\":\"65\"}}",
            "20"
        ),
        Ok(WeatherReport {
            temperature: "20".to_string(),
            condition: "Unknown".to_string(),
            humidity: 0,
        })
    );
    assert_eq!(
        read_weather("{\"current\":{\"condition\":\"Sunny\",\"humidity\":-3}}", "20"),
        Ok(WeatherReport {
            temperature: "20".to_string(),
            condition: "Unknown".to_string(),
            humidity: 0,
        })
    );
    assert_eq!(
        read_weather("{\"current\":{\"humidity\":65.5}}", "20").unwrap().humidity,
        0
    );
}

#[test]
fn largest_humidity_that_fits_is_kept() {
    assert_eq!(
        read_weather("{\"current\":{\"humidity\":18446744073709551615}}", "0")
            .unwrap()
            .humidity,
        u64::MAX
    );
    assert_eq!(
        read_weather("{\"current\":{\"humidity\":18446744073709551616}}", "0")
            .unwrap()
            .humidity,
        0
    );
}

#[test]
fn condition_text_is_unescaped() {
    assert_eq!(
        read_weather(
            "{\"current\":{\"condition\":{\"text\":\"Light \\\"rain\\\" \\u00e0 Pune\"}}}",
            "0"
        )
        .unwrap()
        .condition,
        "Light \"rain\" à Pune"
    );
}

#[test]
fn text_that_is_not_json_is_malformed() {
    assert_eq!(read_weather("", "1"), Err(WeatherError::Malformed));
    assert_eq!(read_weather("{\"current\":", "1"), Err(WeatherError::Malformed));
    assert_eq!(read_weather("<html></html>", "1"), Err(WeatherError::Malformed));
    assert_eq!(read_weather("{\"current\":{}} trailing", "1"), Err(WeatherError::Malformed));
}

#[test]
fn report_from_applies_the_defaults() {
    assert_eq!(
        report_from("7", Some("Mist".to_string()), Some(99)),
        WeatherReport { temperature: "7".to_string(), condition: "Mist".to_string(), humidity: 99 }
    );
    assert_eq!(
        report_from("7", None, Some(99)),
        WeatherReport {
            temperature: "7".to_string(),
            condition: "Unknown".to_string(),
            humidity: 99,
        }
    );
    assert_eq!(
        report_from("7", Some("".to_string()), None),
        WeatherReport { temperature: "7".to_string(), condition: "".to_string(), humidity: 0 }
    );
}
