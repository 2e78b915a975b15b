use bark_core::app::protocol::{align_packet_buffer, on_receive};
use bark_core::sync::queue::channel;
use bark_core::system::task::registry::Registry;
use bark_core::platform::net::{esp_to_rust_ipv4_addr, rust_to_esp_ipv4_addr, LwipError, NetError};
use bark_core::platform::wifi::{self, fixed, IpEvent, WifiEvent, WifiState};
use bark_core::platform::{has_wifi_event, on_wifi_event, AppControl};
use bark_core::stats::{Counter, Stats};
use bark_core::system::heap::array::RawHeapArray;
use bark_core::system::heap::dma;
use bark_core::system::heap::{check_alloc, MallocError};
use bark_core::system::log::{log_color, log_label, Buffer, Level};
use bark_core::system::sched::SuspendCount;
use bark_core::system::sema::{check_handle, AllocMutexError};

#[test]
fn counters_wrap_and_reset() {
    let mut counter = Counter::new();
    counter.increment();
    counter.add(41);
    assert_eq!(counter.take(), 42);
    assert_eq!(counter.take(), 0);
    counter.add(u32::MAX);
    counter.add(2);
    assert_eq!(counter.take(), 1);
}

#[test]
fn stats_report_and_reset() {
    let mut stats = Stats::new();
    stats.wifi_packets_received.add(3);
    stats.dac_underruns.increment();
    let report = stats.take();
    assert_eq!(report.wifi_packets_received, 3);
    assert_eq!(report.dac_underruns, 1);
    assert_eq!(report.stream_hit, 0);
    assert_eq!(stats.take().wifi_packets_received, 0);
}

#[test]
fn lwip_codes() {
    assert_eq!(LwipError::check(0), Ok(()));
    assert_eq!(LwipError::check(-4).map_err(|e| e.code()), Err(-4));
    assert_eq!(LwipError::check(7).map_err(|e| e.code()), Err(7));
    let err = LwipError::check(-1).unwrap_err();
    assert_eq!(NetError::from_lwip_error(err), NetError::Lwip(err));
    assert_eq!(
        NetError::from_malloc_error(MallocError { bytes: 8 }),
        NetError::Alloc(MallocError { bytes: 8 })
    );
}

#[test]
fn ip_addresses() {
    assert_eq!(rust_to_esp_ipv4_addr([224, 100, 100, 100]), 0x646464e0);
    assert_eq!(rust_to_esp_ipv4_addr([1, 2, 3, 4]), 0x04030201);
    assert_eq!(esp_to_rust_ipv4_addr(0x04030201), [1, 2, 3, 4]);
    assert_eq!(esp_to_rust_ipv4_addr(0xffffff00), [0, 255, 255, 255]);
}

#[test]
fn wifi_events() {
    assert_eq!(wifi::on_wifi_event(WifiEvent::StationStart), Some(WifiState::Started));
    assert_eq!(wifi::on_wifi_event(WifiEvent::StationDisconnected), Some(WifiState::Disconnected));
    assert_eq!(wifi::on_wifi_event(WifiEvent::Other), None);
    assert_eq!(wifi::on_ip_event(IpEvent::StationGotIp), Some(WifiState::Online));
    assert_eq!(wifi::on_ip_event(IpEvent::Other), None);
    assert_eq!(on_wifi_event(WifiState::Online), AppControl::Start);
    assert_eq!(on_wifi_event(WifiState::Disconnected), AppControl::Stop);
    assert_eq!(on_wifi_event(WifiState::Started), AppControl::Keep);
    assert_eq!(on_wifi_event(WifiState::Uninit), AppControl::Keep);
    assert!(has_wifi_event(1));
    assert!(!has_wifi_event(2));
}

#[test]
fn fixed_fields() {
    assert_eq!(fixed::<6>("abc"), [b'a', b'b', b'c', 0, 0, 0]);
    assert_eq!(fixed::<2>("abc"), [b'a', b'b']);
    assert_eq!(fixed::<0>("abc"), [0u8; 0]);
    assert_eq!(fixed::<3>(""), [0, 0, 0]);
}

#[test]
fn log_buffer_cuts_and_terminates() {
    let mut buffer: Buffer<8> = Buffer::new();
    assert_eq!(buffer.as_bytes_with_nul(), b"\0");
    buffer.write_str("abc");
    assert_eq!(buffer.unused(), 4);
    buffer.write_str("defghij");
    assert_eq!(buffer.as_bytes_with_nul(), b"abcdefg\0");
    buffer.write_str("x");
    assert_eq!(buffer.as_bytes_with_nul(), b"abcdefg\0");
    assert_eq!(buffer.unused(), 0);
}

#[test]
fn log_labels_and_colors() {
    assert_eq!(log_label(Level::Error), "ERROR");
    assert_eq!(log_label(Level::Warn), "WARN ");
    assert_eq!(log_label(Level::Info), "INFO ");
    assert_eq!(log_label(Level::Debug), "DEBUG");
    assert_eq!(log_label(Level::Trace), "TRACE");
    assert_eq!(log_color(Level::Error).normal, "\x1b[31m");
    assert_eq!(log_color(Level::Warn).bright, "\x1b[1;33m");
    assert_eq!(log_color(Level::Info).normal, "\x1b[32m");
    assert_eq!(log_color(Level::Debug).bright, "");
    assert_eq!(log_color(Level::Trace).normal, "\x1b[2m");
}

#[test]
fn allocation_results() {
    assert_eq!(check_alloc(0, 16), Err(MallocError { bytes: 16 }));
    assert_eq!(check_alloc(0x1000, 16), Ok(0x1000));
    assert_eq!(check_handle(0), Err(AllocMutexError));
    assert_eq!(check_handle(5), Ok(5));
    assert_eq!(dma::allocate(0, 64).map(|b| b.len()), Err(dma::DmaAllocError { bytes: 64 }));
    let mut buffer = dma::allocate(0x1000, 4).unwrap().zeroed();
    assert_eq!(buffer.len(), 4);
    buffer.set(2, 9);
    assert_eq!(buffer.bytes(), &[0, 0, 9, 0]);
    let mut array: RawHeapArray<u8> = RawHeapArray::allocate(3);
    assert_eq!(array.len(), 3);
    assert_eq!(array.replace(1, Some(5)), None);
    assert_eq!(array.replace(1, None), Some(5));
}

#[test]
fn scheduler_is_suspended_by_the_first_and_resumed_by_the_last() {
    let mut count = SuspendCount::new();
    let (a, first) = count.suspend();
    let (b, second) = count.suspend();
    assert!(first);
    assert!(!second);
    assert!(!count.resume(a));
    assert!(count.resume(b));
}

#[test]
fn network_callback_counts_and_drops_when_full() {
    let registry = Registry::new();
    let mut stats = Stats::new();
    let mut queue = channel::<u8>(2).unwrap();
    for packet in 0..5u8 {
        assert!(on_receive(&mut queue, packet, &registry, &mut stats).is_empty());
    }
    let report = stats.take();
    assert_eq!(report.wifi_packets_received, 5);
    assert_eq!(report.packets_dropped_in_protocol_queue, 3);
    assert_eq!(queue.try_receive(&registry).map(|r| r.item), Some(0));
    assert_eq!(queue.try_receive(&registry).map(|r| r.item), Some(1));
    assert!(queue.try_receive(&registry).is_none());
}

#[test]
fn unaligned_buffers_are_copied() {
    assert!(!align_packet_buffer(0x1000));
    assert!(align_packet_buffer(0x1004));
    assert!(align_packet_buffer(0x1001));
    assert!(!align_packet_buffer(0x1008));
}
