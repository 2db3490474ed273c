use homewizard_water_exporter::homewizard::Reading;
use homewizard_water_exporter::metrics::Metrics;

// Numeric reading fields carry thousandths of the device's unit, so a
// reported 1234.567 cubic meters stands as 1_234_567.
fn create_test_data() -> Reading {
    Reading {
        wifi_ssid: "TestNetwork".to_string(),
        wifi_strength_milli: 75_500,
        total_liter_m3_milli: 1_234_567,
        active_liter_lpm_milli: 15_500,
        total_liter_offset_m3_milli: 100_000,
    }
}

#[test]
fn test_metrics_creation() {
    let metrics = Metrics::new();
    assert!(metrics.is_ok());
}

#[test]
fn test_metrics_update() {
    let mut metrics = Metrics::new().unwrap();
    let data = create_test_data();

    let result = metrics.update(&data);
    assert!(result.is_ok());
}

#[test]
fn test_metrics_gather() {
    let mut metrics = Metrics::new().unwrap();
    let data = create_test_data();

    metrics.update(&data).unwrap();
    let result = metrics.gather();
    assert!(result.is_ok());

    let output = result.unwrap();
    assert!(output.contains("homewizard_water_total_m3"));
    assert!(output.contains("homewizard_water_active_flow_lpm"));
    assert!(output.contains("homewizard_water_offset_m3"));
    assert!(output.contains("homewizard_water_wifi_strength_percent"));
    assert!(output.contains("homewizard_water_meter_info"));
}

#[test]
fn test_metrics_water_values() {
    let mut metrics = Metrics::new().unwrap();
    let data = create_test_data();

    metrics.update(&data).unwrap();
    let output = metrics.gather().unwrap();

    assert!(output.contains("homewizard_water_total_m3 1234.567"));
    assert!(output.contains("homewizard_water_active_flow_lpm 15.5"));
    assert!(output.contains("homewizard_water_offset_m3 100"));
}

#[test]
fn test_metrics_network_values() {
    let mut metrics = Metrics::new().unwrap();
    let data = create_test_data();

    metrics.update(&data).unwrap();
    let output = metrics.gather().unwrap();

    assert!(output.contains("homewizard_water_wifi_strength_percent 75.5"));
}

#[test]
fn test_metrics_meter_info_values() {
    let mut metrics = Metrics::new().unwrap();
    let data = create_test_data();

    metrics.update(&data).unwrap();
    let output = metrics.gather().unwrap();

    assert!(output.contains("homewizard_water_meter_info{wifi_ssid=\"TestNetwork\"} 1"));
}

#[test]
fn test_metrics_with_zero_values() {
    let mut metrics = Metrics::new().unwrap();
    let mut data = create_test_data();
    data.total_liter_m3_milli = 0;
    data.active_liter_lpm_milli = 0;
    data.total_liter_offset_m3_milli = 0;
    data.wifi_strength_milli = 0;

    metrics.update(&data).unwrap();
    let output = metrics.gather().unwrap();

    assert!(output.contains("homewizard_water_total_m3 0"));
    assert!(output.contains("homewizard_water_active_flow_lpm 0"));
    assert!(output.contains("homewizard_water_offset_m3 0"));
    assert!(output.contains("homewizard_water_wifi_strength_percent 0"));
}

#[test]
fn test_metrics_update_multiple_times() {
    let mut metrics = Metrics::new().unwrap();
    let mut data = create_test_data();

    // First update
    metrics.update(&data).unwrap();
    let output1 = metrics.gather().unwrap();
    assert!(output1.contains("homewizard_water_active_flow_lpm 15.5"));

    // Second update with different values
    data.active_liter_lpm_milli = 25_000;
    metrics.update(&data).unwrap();
    let output2 = metrics.gather().unwrap();
    assert!(output2.contains("homewizard_water_active_flow_lpm 25"));
}

#[test]
fn test_metrics_large_values() {
    let mut metrics = Metrics::new().unwrap();
    let mut data = create_test_data();
    data.total_liter_m3_milli = 999_999_999;
    data.active_liter_lpm_milli = 999_000;
    data.total_liter_offset_m3_milli = 500_000;

    metrics.update(&data).unwrap();
    let output = metrics.gather().unwrap();

    assert!(output.contains("homewizard_water_total_m3 999999.999"));
    assert!(output.contains("homewizard_water_active_flow_lpm 999"));
    assert!(output.contains("homewizard_water_offset_m3 500"));
}

#[test]
fn test_metrics_with_different_wifi_network() {
    let mut metrics = Metrics::new().unwrap();
    let mut data = create_test_data();
    data.wifi_ssid = "DifferentNetwork".to_string();

    metrics.update(&data).unwrap();
    let output = metrics.gather().unwrap();

    assert!(output.contains("homewizard_water_meter_info{wifi_ssid=\"DifferentNetwork\"} 1"));
}

#[test]
fn test_metrics_with_high_flow_rate() {
    let mut metrics = Metrics::new().unwrap();
    let mut data = create_test_data();
    data.active_liter_lpm_milli = 1_000_000;

    metrics.update(&data).unwrap();
    let output = metrics.gather().unwrap();

    assert!(output.contains("homewizard_water_active_flow_lpm 1000"));
}

#[test]
fn test_metrics_with_negative_offset() {
    let mut metrics = Metrics::new().unwrap();
    let mut data = create_test_data();
    data.total_liter_offset_m3_milli = -50_000;

    metrics.update(&data).unwrap();
    let output = metrics.gather().unwrap();

    assert!(output.contains("homewizard_water_offset_m3 -50"));
}

#[test]
fn test_metrics_with_weak_wifi() {
    let mut metrics = Metrics::new().unwrap();
    let mut data = create_test_data();
    data.wifi_strength_milli = 10_000;

    metrics.update(&data).unwrap();
    let output = metrics.gather().unwrap();

    assert!(output.contains("homewizard_water_wifi_strength_percent 10"));
}

#[test]
fn test_metrics_with_decimal_values() {
    let mut metrics = Metrics::new().unwrap();
    let mut data = create_test_data();
    data.total_liter_m3_milli = 123_456;
    data.active_liter_lpm_milli = 7_890;
    data.total_liter_offset_m3_milli = 12_340;

    metrics.update(&data).unwrap();
    let output = metrics.gather().unwrap();

    assert!(output.contains("homewizard_water_total_m3 123.456"));
    assert!(output.contains("homewizard_water_active_flow_lpm 7.89"));
    assert!(output.contains("homewizard_water_offset_m3 12.34"));
}

#[test]
fn test_metrics_info_sample_is_single() {
    let mut metrics = Metrics::new().unwrap();
    let mut data = create_test_data();

    metrics.update(&data).unwrap();
    data.wifi_ssid = "SecondNetwork".to_string();
    metrics.update(&data).unwrap();
    let output = metrics.gather().unwrap();

    // Only the current identifier is exposed, exactly once, with value 1.
    assert_eq!(output.matches("homewizard_water_meter_info{").count(), 1);
    assert!(output.contains("homewizard_water_meter_info{wifi_ssid=\"SecondNetwork\"} 1"));
    assert!(!output.contains("TestNetwork"));
}

#[test]
fn test_metrics_info_label_is_escaped() {
    let mut metrics = Metrics::new().unwrap();
    let mut data = create_test_data();
    data.wifi_ssid = "My\"Net\\Home\n2".to_string();

    metrics.update(&data).unwrap();
    let output = metrics.gather().unwrap();

    assert!(output.contains("homewizard_water_meter_info{wifi_ssid=\"My\\\"Net\\\\Home\\n2\"} 1"));
}

#[test]
fn test_metrics_before_first_update_has_no_info_sample() {
    let metrics = Metrics::new().unwrap();
    let output = metrics.gather().unwrap();

    assert!(output.contains("# TYPE homewizard_water_meter_info gauge"));
    assert!(!output.contains("homewizard_water_meter_info{"));
    assert!(output.contains("homewizard_water_total_m3 0"));
}

#[test]
fn test_metrics_render_layout() {
    let mut metrics = Metrics::new().unwrap();
    metrics.update(&create_test_data()).unwrap();
    let output = metrics.gather().unwrap();

    let expected = "# HELP homewizard_water_total_m3 Total water consumption in m\u{b3}\n\
                    # TYPE homewizard_water_total_m3 counter\n\
                    homewizard_water_total_m3 1234.567\n\
                    # HELP homewizard_water_active_flow_lpm Current water flow in liters per minute\n\
                    # TYPE homewizard_water_active_flow_lpm gauge\n\
                    homewizard_water_active_flow_lpm 15.5\n\
                    # HELP homewizard_water_offset_m3 Water meter offset in m\u{b3}\n\
                    # TYPE homewizard_water_offset_m3 gauge\n\
                    homewizard_water_offset_m3 100\n\
                    # HELP homewizard_water_wifi_strength_percent WiFi signal strength percentage\n\
                    # TYPE homewizard_water_wifi_strength_percent gauge\n\
                    homewizard_water_wifi_strength_percent 75.5\n\
                    # HELP homewizard_water_meter_info Water meter information\n\
                    # TYPE homewizard_water_meter_info gauge\n\
                    homewizard_water_meter_info{wifi_ssid=\"TestNetwork\"} 1\n";
    assert_eq!(output, expected);
}
