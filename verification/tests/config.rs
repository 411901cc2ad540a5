use boringtun_cli::config::{check_tun_name, Args, ConfigurationError, Verbosity};
use boringtun_cli::decimal::render_decimal;
use std::borrow::Cow;

fn sample() -> Args {
    Args::new(String::from("wg0"))
}

#[test]
fn defaults() {
    let args = sample();
    assert_eq!(args.interface_name, "wg0");
    assert!(!args.foreground);
    assert_eq!(args.threads, 4);
    assert_eq!(args.verbosity, Verbosity::Error);
    assert_eq!(args.uapi_fd, -1);
    assert_eq!(args.tun_fd, -1);
    assert_eq!(args.log, "/tmp/boringtun.out");
    assert!(!args.disable_drop_privileges);
    assert!(!args.disable_connected_udp);
    assert!(!args.disable_multi_queue);
    assert_eq!(args.validate(), Ok(()));
}

#[test]
fn tun_name_is_the_interface_name_without_a_descriptor() {
    let args = sample();
    assert_eq!(args.tun_name(), "wg0");
}

#[test]
fn tun_name_is_the_numeral_of_a_supplied_descriptor() {
    let mut args = sample();
    args.tun_fd = 0;
    assert_eq!(args.tun_name(), "0");
    args.tun_fd = 7;
    assert_eq!(args.tun_name(), "7");
    args.tun_fd = 1234;
    assert_eq!(args.tun_name(), 1234.to_string());
    args.tun_fd = i32::MAX;
    assert_eq!(args.tun_name(), "2147483647");
}

#[test]
fn name_is_lent_and_numeral_is_owned() {
    let mut args = sample();
    assert!(matches!(args.tun_name(), Cow::Borrowed("wg0")));
    args.tun_fd = 3;
    assert!(matches!(args.tun_name(), Cow::Owned(_)));
}

#[test]
fn numeral_of_a_descriptor_reads_back_as_the_descriptor() {
    let mut args = sample();
    for fd in [0, 1, 5, 10, 99, 100, 4096, i32::MAX] {
        args.tun_fd = fd;
        assert_eq!(args.tun_name().parse::<i32>(), Ok(fd));
    }
}

#[test]
fn negative_descriptor_falls_back_to_the_name() {
    let mut args = sample();
    args.tun_fd = -5;
    assert_eq!(args.tun_name(), "wg0");
    args.tun_fd = i32::MIN;
    assert_eq!(args.tun_name(), "wg0");
}

#[test]
fn device_config_copies_threads_and_descriptor_and_inverts_the_switches() {
    let mut args = sample();
    args.threads = 3;
    args.uapi_fd = 9;
    args.disable_connected_udp = true;
    let config = args.device_config();
    assert_eq!(config.n_threads, 3);
    assert_eq!(config.uapi_fd, 9);
    assert!(!config.use_connected_socket);
    assert!(config.use_multi_queue);
}

#[test]
fn device_config_of_the_defaults() {
    let config = sample().device_config();
    assert_eq!(config.n_threads, 4);
    assert_eq!(config.uapi_fd, -1);
    assert!(config.use_connected_socket);
    assert!(config.use_multi_queue);
}

#[test]
fn device_config_without_multi_queue() {
    let mut args = sample();
    args.disable_multi_queue = true;
    let config = args.device_config();
    assert!(config.use_connected_socket);
    assert!(!config.use_multi_queue);
}

#[test]
fn every_interface_name_is_taken_as_it_is() {
    assert_eq!(check_tun_name("wg0"), Ok(String::from("wg0")));
    assert_eq!(check_tun_name("utun"), Ok(String::from("utun")));
    assert_eq!(check_tun_name(""), Ok(String::new()));
}

#[test]
fn configuration_needs_a_worker_thread() {
    let mut args = sample();
    assert_eq!(args.validate(), Ok(()));
    args.threads = 1;
    assert_eq!(args.validate(), Ok(()));
    args.threads = 0;
    assert_eq!(args.validate(), Err(ConfigurationError::NoThreads));
}

#[test]
fn log_file_only_in_the_background() {
    let mut args = sample();
    assert_eq!(args.log_destination(), Some(String::from("/tmp/boringtun.out")));
    args.foreground = true;
    assert_eq!(args.log_destination(), None);
}

#[test]
fn numerals_are_those_of_the_standard_library() {
    for n in [0u32, 1, 9, 10, 11, 99, 100, 101, 1000, 65535, 2147483647, 4294967295] {
        assert_eq!(render_decimal(n), n.to_string());
    }
}
