use zenbookd::wifi::{is_p2p_interface, parse_power_save, IwOutput, NetEntry, Wifi, WifiError, WifiReadError, WifiSetError};

fn net(names: &[(&str, bool)]) -> Result<Vec<NetEntry>, String> {
    Ok(names
        .iter()
        .map(|(name, wireless)| NetEntry { name: Some(name.to_string()), wireless: *wireless })
        .collect())
}

fn output(success: bool, stdout: &str, stderr: &str) -> IwOutput {
    IwOutput { success, stdout: stdout.to_string(), stderr: stderr.to_string() }
}

#[test]
fn reads_the_value_after_the_colon() {
    assert_eq!(parse_power_save("Power save: on\n"), Some(true));
    assert_eq!(parse_power_save("Power save: off\n"), Some(false));
}

#[test]
fn rejects_output_it_does_not_recognise() {
    assert_eq!(parse_power_save("command not found"), None);
    assert_eq!(parse_power_save("Power save: maybe"), None);
    assert_eq!(parse_power_save(""), None);
}

#[test]
fn only_the_second_field_counts() {
    assert_eq!(parse_power_save("a:on:off"), Some(true));
    assert_eq!(parse_power_save(":off"), Some(false));
    assert_eq!(parse_power_save("on"), None);
}

#[test]
fn finds_the_wireless_interface() {
    let wifi = Wifi::find(net(&[("eth0", false), ("wlan0", true)])).unwrap();

    assert_eq!(wifi.interface(), "wlan0");
}

#[test]
fn reports_not_found_without_a_wireless_interface() {
    assert!(matches!(Wifi::find(net(&[("eth0", false), ("lo", false)])), Err(WifiError::NotFound)));
}

#[test]
fn skips_p2p_device_interfaces() {
    let wifi = Wifi::find(net(&[("p2p-dev-wlan0", true), ("wlan0", true)])).unwrap();

    assert_eq!(wifi.interface(), "wlan0");
}

#[test]
fn skips_p2p_group_interfaces() {
    let wifi = Wifi::find(net(&[("p2p-wlan0-0", true), ("wlp2s0", true)])).unwrap();

    assert_eq!(wifi.interface(), "wlp2s0");
}

#[test]
fn reports_not_found_when_only_p2p_interfaces_exist() {
    assert!(matches!(Wifi::find(net(&[("p2p-dev-wlan0", true)])), Err(WifiError::NotFound)));
}

#[test]
fn the_first_wireless_interface_in_name_order_is_chosen() {
    let wifi = Wifi::find(net(&[("wlp3s0", true), ("wlan1", true), ("wlan0", true)])).unwrap();
    assert_eq!(wifi.interface(), "wlan0");
    assert!(is_p2p_interface("p2p-dev-wlan0"));
    assert!(!is_p2p_interface("p2p"));
}

#[test]
fn power_save_is_read_through_iw() {
    let wifi = Wifi::find(net(&[("wlan0", true)])).unwrap();
    assert_eq!(wifi.power_save_command(), vec!["dev", "wlan0", "get", "power_save"]);
    assert_eq!(wifi.power_save(Ok(output(true, "Power save: on\n", ""))), Ok(true));
    assert_eq!(
        wifi.power_save(Ok(output(false, "", " command failed: No such device (-19)\n"))),
        Err(WifiReadError::CommandFailed("command failed: No such device (-19)".to_string()))
    );
    assert_eq!(
        wifi.power_save(Ok(output(true, " odd \n", ""))),
        Err(WifiReadError::UnexpectedOutput("odd".to_string()))
    );
    assert_eq!(wifi.power_save(Err("timed out".to_string())), Err(WifiReadError::IoError("timed out".to_string())));
}

#[test]
fn power_save_is_set_through_iw() {
    let wifi = Wifi::find(net(&[("wlan0", true)])).unwrap();
    assert_eq!(wifi.set_power_save_command(true), vec!["dev", "wlan0", "set", "power_save", "on"]);
    assert_eq!(wifi.set_power_save_command(false), vec!["dev", "wlan0", "set", "power_save", "off"]);
    assert_eq!(wifi.set_power_save(Ok(output(true, "", ""))), Ok(()));
    assert_eq!(
        wifi.set_power_save(Ok(output(false, "", "denied\n"))),
        Err(WifiSetError::CommandFailed("denied".to_string()))
    );
}
