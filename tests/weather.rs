use aplicacion_rust::config::{config_report, debug_enabled, env_sources, mode_file_name, resolve_mode, EnvSource};
use aplicacion_rust::report::{banner, render, report, Current, Location, WeatherResult};
use aplicacion_rust::request::{city_query, plan_request, query_url, Fatal};
use aplicacion_rust::text::{decimal, tenths};

fn quito() -> WeatherResult {
    WeatherResult {
        location: Location {
            name: "Quito".to_string(),
            region: "Pichincha".to_string(),
            country: "Ecuador".to_string(),
        },
        current: Current {
            temp_tenths: 185,
            feels_like_tenths: 179,
            humidity: 70,
            condition: "Parcialmente nublado".to_string(),
        },
    }
}

#[test]
fn unset_mode_defaults_to_development() {
    let mode = resolve_mode(None);
    assert_eq!(mode, "development");
    let sources = env_sources(&mode);
    assert_eq!(sources.len(), 2);
    match &sources[0] {
        EnvSource::ModeFile(f) => assert_eq!(f, ".env.development"),
        EnvSource::DefaultFile => panic!("the mode file must come first"),
    }
    assert!(matches!(sources[1], EnvSource::DefaultFile));
}

#[test]
fn set_mode_is_kept() {
    assert_eq!(resolve_mode(Some("production".to_string())), "production");
    assert_eq!(resolve_mode(Some("staging".to_string())), "staging");
}

#[test]
fn mode_file_names() {
    assert_eq!(mode_file_name(&"production".to_string()), ".env.production");
    assert_eq!(mode_file_name(&"development".to_string()), ".env.development");
    assert_eq!(mode_file_name(&"staging".to_string()), ".env.development");
    assert_eq!(mode_file_name(&"".to_string()), ".env.development");
}

#[test]
fn debug_only_for_exact_true() {
    assert!(debug_enabled(&Some("true".to_string())));
    assert!(!debug_enabled(&Some("TRUE".to_string())));
    assert!(!debug_enabled(&Some("1".to_string())));
    assert!(!debug_enabled(&Some("true ".to_string())));
    assert!(!debug_enabled(&Some("false".to_string())));
    assert!(!debug_enabled(&None));
}

#[test]
fn config_report_without_debug() {
    let lines = config_report(&"development".to_string(), false, Some("trace".to_string()));
    assert_eq!(lines, vec!["Modo de ejecución: development".to_string()]);
}

#[test]
fn config_report_with_debug() {
    let lines = config_report(&"production".to_string(), true, None);
    assert_eq!(
        lines,
        vec![
            "Modo de ejecución: production".to_string(),
            "Modo de depuración activado".to_string(),
            "Nivel  de log: info".to_string(),
        ]
    );
    let lines = config_report(&"production".to_string(), true, Some("warn".to_string()));
    assert_eq!(lines[2], "Nivel  de log: warn");
}

#[test]
fn url_embeds_key_and_city() {
    assert_eq!(
        query_url("abc123", "Quito"),
        "https://api.weatherapi.com/v1/current.json?key=abc123&q=Quito&lang=es"
    );
}

#[test]
fn missing_key_is_fatal() {
    let r = plan_request(None, "Quito", true);
    assert!(matches!(r, Err(Fatal::MissingApiKey)));
    assert_eq!(
        Fatal::MissingApiKey.message(),
        "No se encontró la variable WEATHER_API_KEY en el archivo .env"
    );
    assert_eq!(Fatal::UnreadableInput.message(), "Error al leer la entrada");
}

#[test]
fn debug_echoes_url() {
    let q = plan_request(Some("k".to_string()), "Lima", true).ok().unwrap();
    assert_eq!(q.url, "https://api.weatherapi.com/v1/current.json?key=k&q=Lima&lang=es");
    assert_eq!(
        q.diagnostics,
        vec!["DEBUG: Consultando URL: https://api.weatherapi.com/v1/current.json?key=k&q=Lima&lang=es".to_string()]
    );
    let q = plan_request(Some("k".to_string()), "Lima", false).ok().unwrap();
    assert!(q.diagnostics.is_empty());
}

#[test]
fn empty_city_is_still_requested() {
    let city = city_query("\n");
    assert_eq!(city, "");
    let q = plan_request(Some("k".to_string()), &city, false).ok().unwrap();
    assert_eq!(q.url, "https://api.weatherapi.com/v1/current.json?key=k&q=&lang=es");
}

#[test]
fn city_is_trimmed() {
    assert_eq!(city_query("  Quito \r\n"), "Quito");
    assert_eq!(city_query("\tSan José\u{3000}"), "San José");
    assert_eq!(city_query("Buenos Aires"), "Buenos Aires");
}

#[test]
fn quito_report_contains_fields() {
    let lines = render(&quito());
    let text = lines.join("\n");
    for part in ["Quito", "Ecuador", "Pichincha", "18.5°C", "17.9°C", "70%", "Parcialmente nublado"] {
        assert!(text.contains(part), "missing {}", part);
    }
    assert_eq!(
        lines,
        vec![
            "".to_string(),
            "Clima actual en Quito:".to_string(),
            "País: Ecuador".to_string(),
            "Región: Pichincha".to_string(),
            "Temperatura: 18.5°C".to_string(),
            "Sensación térmica: 17.9°C".to_string(),
            "Humedad: 70%".to_string(),
            "Condición: Parcialmente nublado".to_string(),
        ]
    );
}

#[test]
fn failure_is_one_line() {
    let lines = report(&Err("error decoding response body".to_string()));
    assert_eq!(lines, vec!["Error: error decoding response body".to_string()]);
    let lines = report(&Ok(quito()));
    assert_eq!(lines.len(), 8);
}

#[test]
fn banner_lines() {
    assert_eq!(
        banner(),
        vec![
            "Aplicación de Clima".to_string(),
            "-----------------".to_string(),
            "Ingresa el nombre de una ciudad:".to_string(),
        ]
    );
}

#[test]
fn tenths_formatting() {
    assert_eq!(tenths(185), "18.5");
    assert_eq!(tenths(0), "0.0");
    assert_eq!(tenths(7), "0.7");
    assert_eq!(tenths(-5), "-0.5");
    assert_eq!(tenths(-123), "-12.3");
    assert_eq!(tenths(1000), "100.0");
    assert_eq!(tenths(i64::MIN), "-922337203685477580.8");
}

#[test]
fn decimal_formatting() {
    assert_eq!(decimal(0), "0");
    assert_eq!(decimal(70), "70");
    assert_eq!(decimal(-12), "-12");
    assert_eq!(decimal(i64::MAX), "9223372036854775807");
}
