//! Tests of the device adapter: construction, the capability table, raw
//! descriptor ownership, and the split halves over real descriptors.

use tun_core::addr::IpAddr;
use tun_core::capability::AbstractDevice;
use tun_core::config::Configuration;
use tun_core::device::Device;
use tun_core::error::Error;
use tun_core::DEFAULT_MTU;

fn empty_config() -> Configuration {
    Configuration {
        raw_fd: None,
        close_fd_on_drop: None,
        mtu: None,
        address: None,
        netmask: None,
    }
}

fn pipe_config() -> (Configuration, i32, i32) {
    let (read_end, write_end): (i32, i32) = nix::unistd::pipe().unwrap();
    let mut config = empty_config();
    config.raw_fd = Some(read_end);
    (config, read_end, write_end)
}

#[test]
fn missing_descriptor_fails_invalid_config() {
    let config = empty_config();
    assert_eq!(Device::new(&config).err(), Some(Error::InvalidConfig));
}

#[test]
fn missing_descriptor_fails_whatever_else_is_set() {
    let mut config = empty_config();
    config.close_fd_on_drop = Some(false);
    config.mtu = Some(1280);
    config.address = Some(IpAddr::V4(10, 0, 0, 1));
    config.netmask = Some(IpAddr::V4(255, 255, 255, 0));
    assert_eq!(Device::new(&config).err(), Some(Error::InvalidConfig));
}

#[test]
fn negative_descriptor_fails_os_error() {
    let mut config = empty_config();
    config.raw_fd = Some(-1);
    match Device::new(&config) {
        Err(Error::OsError(_)) => {}
        other => panic!("expected an OS error, got {:?}", other.map(|_| ())),
    }
}

#[test]
fn default_mtu_when_none_configured() {
    let (config, _r, write_end) = pipe_config();
    let device = Device::new(&config).unwrap();
    assert_eq!(device.mtu(), Ok(DEFAULT_MTU));
    assert_eq!(device.mtu(), Ok(1500));
    drop(device);
    nix::unistd::close(write_end).unwrap();
}

#[test]
fn configured_mtu_is_reported() {
    let (mut config, _r, write_end) = pipe_config();
    config.mtu = Some(1280);
    let mut device = Device::new(&config).unwrap();
    assert_eq!(device.mtu(), Ok(1280));
    assert_eq!(device.set_mtu(9000), Ok(()));
    assert_eq!(device.mtu(), Ok(9000));
    drop(device);
    nix::unistd::close(write_end).unwrap();
}

#[test]
fn address_cache_round_trip() {
    let (config, _r, write_end) = pipe_config();
    let mut device = Device::new(&config).unwrap();
    assert_eq!(device.address(), Err(Error::NotImplemented));
    let addr = IpAddr::V4(10, 0, 0, 7);
    assert_eq!(device.set_address(addr), Ok(()));
    assert_eq!(device.address(), Ok(addr));
    let addr6 = IpAddr::V6(0xfe80, 0, 0, 0, 0, 0, 0, 1);
    assert_eq!(device.set_address(addr6), Ok(()));
    assert_eq!(device.address(), Ok(addr6));
    drop(device);
    nix::unistd::close(write_end).unwrap();
}

#[test]
fn netmask_cache_round_trip() {
    let (config, _r, write_end) = pipe_config();
    let mut device = Device::new(&config).unwrap();
    assert_eq!(device.netmask(), Err(Error::NotImplemented));
    let mask = IpAddr::V4(255, 255, 0, 0);
    assert_eq!(device.set_netmask(mask), Ok(()));
    assert_eq!(device.netmask(), Ok(mask));
    drop(device);
    nix::unistd::close(write_end).unwrap();
}

#[test]
fn initial_address_and_netmask_come_from_the_configuration() {
    let (mut config, _r, write_end) = pipe_config();
    config.address = Some(IpAddr::V4(192, 168, 1, 2));
    config.netmask = Some(IpAddr::V4(255, 255, 255, 0));
    let device = Device::new(&config).unwrap();
    assert_eq!(device.address(), Ok(IpAddr::V4(192, 168, 1, 2)));
    assert_eq!(device.netmask(), Ok(IpAddr::V4(255, 255, 255, 0)));
    drop(device);
    nix::unistd::close(write_end).unwrap();
}

#[test]
fn unsupported_capabilities_report_not_implemented() {
    let (config, _r, write_end) = pipe_config();
    let mut device = Device::new(&config).unwrap();
    assert_eq!(device.tun_name(), Ok(String::new()));
    assert_eq!(device.set_tun_name("tun0"), Err(Error::NotImplemented));
    assert_eq!(device.destination(), Err(Error::NotImplemented));
    assert_eq!(device.broadcast(), Err(Error::NotImplemented));
    drop(device);
    nix::unistd::close(write_end).unwrap();
}

#[test]
fn silent_no_op_setters_succeed_without_effect() {
    let (mut config, _r, write_end) = pipe_config();
    config.address = Some(IpAddr::V4(10, 1, 1, 1));
    config.mtu = Some(1400);
    let mut device = Device::new(&config).unwrap();
    assert_eq!(device.enabled(true), Ok(()));
    assert_eq!(device.enabled(false), Ok(()));
    assert_eq!(device.set_destination(IpAddr::V4(10, 9, 9, 9)), Ok(()));
    assert_eq!(device.set_broadcast(IpAddr::V4(10, 8, 8, 8)), Ok(()));
    // No observable state changed.
    assert_eq!(device.destination(), Err(Error::NotImplemented));
    assert_eq!(device.broadcast(), Err(Error::NotImplemented));
    assert_eq!(device.address(), Ok(IpAddr::V4(10, 1, 1, 1)));
    assert_eq!(device.mtu(), Ok(1400));
    drop(device);
    nix::unistd::close(write_end).unwrap();
}

#[test]
fn packet_information_is_off_on_this_platform() {
    let (config, _r, write_end) = pipe_config();
    let device = Device::new(&config).unwrap();
    assert!(!device.packet_information());
    drop(device);
    nix::unistd::close(write_end).unwrap();
}

#[test]
fn as_raw_fd_reports_the_supplied_descriptor() {
    let (config, read_end, write_end) = pipe_config();
    let device = Device::new(&config).unwrap();
    assert_eq!(device.as_raw_fd(), read_end);
    drop(device);
    nix::unistd::close(write_end).unwrap();
}

#[test]
fn into_raw_fd_returns_the_descriptor_and_disarms_auto_close() {
    let (config, read_end, write_end) = pipe_config();
    let device = Device::new(&config).unwrap();
    let raw = device.into_raw_fd();
    assert_eq!(raw, read_end);
    // The adapter was consumed without closing: closing externally succeeds
    // exactly once.
    assert!(nix::unistd::close(raw).is_ok());
    assert!(nix::unistd::close(raw).is_err());
    nix::unistd::close(write_end).unwrap();
}

#[test]
fn drop_closes_when_armed() {
    let (config, read_end, write_end) = pipe_config();
    let device = Device::new(&config).unwrap();
    drop(device);
    // The armed adapter closed its descriptor on release.
    assert!(nix::unistd::close(read_end).is_err());
    nix::unistd::close(write_end).unwrap();
}

#[test]
fn drop_leaves_the_descriptor_open_when_disarmed() {
    let (mut config, read_end, write_end) = pipe_config();
    config.close_fd_on_drop = Some(false);
    let device = Device::new(&config).unwrap();
    drop(device);
    // The disarmed adapter left its descriptor open.
    assert!(nix::unistd::close(read_end).is_ok());
    nix::unistd::close(write_end).unwrap();
}

#[test]
fn read_and_write_move_raw_bytes() {
    let (left, right): (i32, i32) = nix::sys::socket::socketpair(
        nix::sys::socket::AddressFamily::Unix,
        nix::sys::socket::SockType::Stream,
        None,
        nix::sys::socket::SockFlag::empty(),
    )
    .unwrap();
    let mut config = empty_config();
    config.raw_fd = Some(left);
    let mut device = Device::new(&config).unwrap();

    assert_eq!(device.write(&[1, 2, 3, 4, 5]), Ok(5));
    assert_eq!(device.flush(), Ok(()));
    let mut peer_buf = [0u8; 16];
    assert_eq!(nix::unistd::read(right, &mut peer_buf), Ok(5));
    assert_eq!(&peer_buf[..5], &[1, 2, 3, 4, 5]);

    assert_eq!(nix::unistd::write(right, &[9, 8, 7]), Ok(3));
    let mut buf = vec![0u8; 16];
    assert_eq!(device.read(&mut buf), Ok(3));
    assert_eq!(&buf[..3], &[9, 8, 7]);
    assert_eq!(buf.len(), 16);

    drop(device);
    nix::unistd::close(right).unwrap();
}

#[test]
fn set_nonblock_turns_would_block_into_an_error() {
    let (left, right): (i32, i32) = nix::sys::socket::socketpair(
        nix::sys::socket::AddressFamily::Unix,
        nix::sys::socket::SockType::Stream,
        None,
        nix::sys::socket::SockFlag::empty(),
    )
    .unwrap();
    let mut config = empty_config();
    config.raw_fd = Some(left);
    let mut device = Device::new(&config).unwrap();
    assert_eq!(device.set_nonblock(), Ok(()));
    let mut buf = vec![0u8; 8];
    match device.read(&mut buf) {
        Err(Error::OsError(code)) => assert_eq!(code, nix::errno::Errno::EAGAIN as i32),
        other => panic!("expected a would-block error, got {:?}", other),
    }
    drop(device);
    nix::unistd::close(right).unwrap();
}

#[test]
fn split_yields_working_read_and_write_halves() {
    let (left, right): (i32, i32) = nix::sys::socket::socketpair(
        nix::sys::socket::AddressFamily::Unix,
        nix::sys::socket::SockType::Stream,
        None,
        nix::sys::socket::SockFlag::empty(),
    )
    .unwrap();
    let mut config = empty_config();
    config.raw_fd = Some(left);
    let device = Device::new(&config).unwrap();
    let (mut reader, mut writer) = device.split();

    assert_eq!(writer.write(&[42, 43]), Ok(2));
    assert_eq!(writer.flush(), Ok(()));
    let mut peer_buf = [0u8; 8];
    assert_eq!(nix::unistd::read(right, &mut peer_buf), Ok(2));
    assert_eq!(&peer_buf[..2], &[42, 43]);

    assert_eq!(nix::unistd::write(right, &[7]), Ok(1));
    let mut buf = vec![0u8; 8];
    assert_eq!(reader.read(&mut buf), Ok(1));
    assert_eq!(buf[0], 7);

    // The halves share ownership: the descriptor stays open until the last
    // half is released, then the armed close happens exactly once.
    drop(reader);
    assert_eq!(nix::unistd::write(right, &[1]), Ok(1));
    drop(writer);
    assert!(nix::unistd::close(left).is_err());
    nix::unistd::close(right).unwrap();
}

#[test]
fn configuration_default_is_empty() {
    let config = Configuration::default();
    assert_eq!(config, empty_config());
    assert_eq!(Device::new(&config).err(), Some(Error::InvalidConfig));
}
