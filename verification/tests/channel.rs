use frame_monitor::{observe, FrameSignal, Polled, RequestFrameMonitor};
use std::future::Future;
use std::pin::Pin;
use tonic::transport::{Channel, Endpoint};

/// Runs nothing: the channel of these tests is never driven.
struct Idle;

impl hyper::rt::Executor<Pin<Box<dyn Future<Output = ()> + Send>>> for Idle {
    fn execute(&self, _background: Pin<Box<dyn Future<Output = ()> + Send>>) {}
}

fn lazy_channel() -> Channel {
    Endpoint::from_static("http://127.0.0.1:50051").executor(Idle).connect_lazy()
}

#[test]
fn a_monitor_wraps_a_channel_unless_told_otherwise() {
    let signal = FrameSignal::new();
    let mut monitor: RequestFrameMonitor = RequestFrameMonitor::new(lazy_channel(), signal.clone());
    let (_channel, for_body): (Channel, FrameSignal) = monitor.begin_call();
    let polled: Polled<u8, ()> = Polled::Frame(1);
    observe(&for_body, polled);
    assert!(signal.is_signalled());
}

#[test]
fn a_channel_is_lent_call_after_call() {
    let mut monitor: RequestFrameMonitor = RequestFrameMonitor::new(lazy_channel(), FrameSignal::new());
    let (first, _) = monitor.begin_call();
    let (second, _) = monitor.begin_call();
    drop(first);
    drop(second);
    let _resident: &mut Channel = monitor.inner_mut();
    assert!(!monitor.frame_signal().is_signalled());
}
