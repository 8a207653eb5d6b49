use std::cell::Cell;

use generic_array::typenum::U16;
use generic_array::GenericArray;
use lorawan_device::radio::{
    Bandwidth, PhyError, PhyResponse, PhyRxTx, RfConfig, RxQuality, TxConfig,
};
use lorawan_device::session::{accept_downlink, Error as SessionError};
use lorawan_device::no_session::Error as NoSessionError;
use lorawan_device::{Device, Error, Event, Response, SessionData, Timings};
use lorawan_encoding::creator::DataPayloadCreator;
use lorawan_encoding::maccommandcreator::LinkCheckAnsCreator;
use lorawan_encoding::maccommands::SerializableMacCommand;
use lorawan_encoding::keys::{CryptoFactory, Decrypter, Encrypter, Mac, AES128};
use lorawan_encoding::parser::{parse_with_factory, DataHeader, DataPayload, FRMPayload, PhyPayload};

// A stand-in cipher: XOR with the key. Encryption and decryption coincide,
// which is all the codec needs to round-trip frames in these tests.
#[derive(Default, Clone, Copy)]
struct XorCrypto;

struct XorCipher([u8; 16]);

struct XorMac {
    key: [u8; 16],
    acc: [u8; 16],
    n: usize,
}

impl Encrypter for XorCipher {
    fn encrypt_block(&self, block: &mut GenericArray<u8, U16>) {
        for i in 0..16 {
            block[i] ^= self.0[i];
        }
    }
}

impl Decrypter for XorCipher {
    fn decrypt_block(&self, block: &mut GenericArray<u8, U16>) {
        for i in 0..16 {
            block[i] ^= self.0[i];
        }
    }
}

impl Mac for XorMac {
    fn input(&mut self, data: &[u8]) {
        for b in data {
            let i = self.n % 16;
            self.acc[i] = self.acc[i].wrapping_mul(31).wrapping_add(*b ^ self.key[i]);
            self.n += 1;
        }
    }
    fn reset(&mut self) {
        self.acc = [0; 16];
        self.n = 0;
    }
    fn result(self) -> GenericArray<u8, U16> {
        GenericArray::clone_from_slice(&self.acc)
    }
}

impl CryptoFactory for XorCrypto {
    type E = XorCipher;
    type D = XorCipher;
    type M = XorMac;
    fn new_enc(&self, key: &AES128) -> XorCipher {
        XorCipher(key.0)
    }
    fn new_dec(&self, key: &AES128) -> XorCipher {
        XorCipher(key.0)
    }
    fn new_mac(&self, key: &AES128) -> XorMac {
        XorMac { key: key.0, acc: [0; 16], n: 0 }
    }
}

enum Phy {
    TxDone(u32),
    RxDone,
    Noise,
}

#[derive(Default)]
struct TestRadio {
    sent: Vec<Vec<u8>>,
    tx_configs: Vec<TxConfig>,
    rx_configs: Vec<RfConfig>,
    rx: Vec<u8>,
    set_rx_calls: usize,
    cancels: usize,
    fail_cancel: bool,
    window_ms: u32,
    // a synchronous driver finishes sending at this time
    sync_tx_done: Option<u32>,
}

impl PhyRxTx for TestRadio {
    type PhyEvent = Phy;
    fn send(&mut self, buffer: &[u8]) -> Option<u32> {
        self.sent.push(buffer.to_vec());
        self.sync_tx_done
    }
    fn get_received_packet(&mut self) -> &mut Vec<u8> {
        &mut self.rx
    }
    fn cancel_tx(&mut self) -> Result<(), PhyError> {
        self.cancels += 1;
        if self.fail_cancel { Err(PhyError::TxError) } else { Ok(()) }
    }
    fn cancel_rx(&mut self) -> Result<(), PhyError> {
        self.cancels += 1;
        if self.fail_cancel { Err(PhyError::RxError) } else { Ok(()) }
    }
    fn configure_tx(&mut self, config: TxConfig) {
        self.tx_configs.push(config);
    }
    fn configure_rx(&mut self, config: RfConfig) {
        self.rx_configs.push(config);
    }
    fn set_rx(&mut self) {
        self.set_rx_calls += 1;
    }
    fn handle_phy_event(&mut self, event: Phy) -> Option<PhyResponse> {
        match event {
            Phy::TxDone(ms) => Some(PhyResponse::TxDone(ms)),
            Phy::RxDone => Some(PhyResponse::RxDone(RxQuality::new(-40, 7))),
            Phy::Noise => Some(PhyResponse::Busy),
        }
    }
}

impl Timings for TestRadio {
    fn get_rx_window_offset_ms(&mut self) -> i32 {
        0
    }
    fn get_rx_window_duration_ms(&mut self) -> u32 {
        self.window_ms
    }
}

const DEVEUI: [u8; 8] = [1, 2, 3, 4, 5, 6, 7, 8];
const APPEUI: [u8; 8] = [8, 7, 6, 5, 4, 3, 2, 1];
const APPKEY: [u8; 16] = [0; 16];
const DEVADDR: [u8; 4] = [0x04, 0x03, 0x02, 0x01];

type Dev<F> = Device<TestRadio, XorCrypto, F>;

fn new_device<F: Fn() -> u32>(random: F) -> Dev<F> {
    let radio = TestRadio { window_ms: 500, ..TestRadio::default() };
    Device::new(radio, DEVEUI, APPEUI, APPKEY, random)
}

// A join-accept as the network sends it: MHDR, AppNonce, NetID, DevAddr,
// DLSettings, RxDelay and the MIC. Under the XOR cipher with the all-zero
// AppKey its encryption leaves the bytes as they are.
fn join_accept_bytes() -> Vec<u8> {
    let mut d = vec![0x20, 0x11, 0x22, 0x33, 0x01, 0x00, 0x00];
    d.extend_from_slice(&DEVADDR);
    d.extend_from_slice(&[0x00, 0x01]);
    let mut mac = XorCrypto.new_mac(&AES128(APPKEY));
    mac.input(&d);
    let mic = mac.result();
    d.extend_from_slice(&mic[0..4]);
    d
}

fn downlink_bytes(session: &SessionData, fcnt: u32, fport: u8, payload: &[u8]) -> Vec<u8> {
    let mut phy = DataPayloadCreator::with_options([0u8; 256], XorCrypto).unwrap();
    phy.set_uplink(false)
        .set_confirmed(false)
        .set_f_port(fport)
        .set_dev_addr(session.devaddr())
        .set_fcnt(fcnt);
    phy.build(
        payload,
        &[],
        &AES128(*session.newskey()),
        &AES128(*session.appskey()),
    )
    .unwrap()
    .to_vec()
}

fn step<F: Fn() -> u32>(d: Dev<F>, e: Event<TestRadio>) -> (Dev<F>, Result<Response, Error>) {
    d.handle_event(e)
}

// Joins through the asynchronous path: request, TX done, window, join-accept.
fn joined<F: Fn() -> u32>(random: F) -> Dev<F> {
    let d = new_device(random);
    let (d, r) = step(d, Event::NewSession);
    assert_eq!(r, Ok(Response::Idle));
    let (d, r) = step(d, Event::RadioEvent(Phy::TxDone(100)));
    assert_eq!(r, Ok(Response::TimeoutRequest(5100)));
    let (mut d, r) = step(d, Event::Timeout);
    assert_eq!(r, Ok(Response::WaitingForJoinAccept));
    d.get_radio().rx = join_accept_bytes();
    let (d, r) = step(d, Event::RadioEvent(Phy::RxDone));
    assert_eq!(r, Ok(Response::NewSession));
    d
}

// One unconfirmed uplink with both windows empty.
fn quiet_uplink<F: Fn() -> u32>(d: Dev<F>) -> Dev<F> {
    let (d, r) = d.send(&[1], 1, false);
    assert!(matches!(r, Ok(Response::SendingDataUp(_))));
    let (d, _) = step(d, Event::RadioEvent(Phy::TxDone(0)));
    let (d, _) = step(d, Event::Timeout);
    let (d, _) = step(d, Event::Timeout);
    let (d, _) = step(d, Event::Timeout);
    let (d, r) = step(d, Event::Timeout);
    assert_eq!(r, Ok(Response::ReadyToSend));
    d
}

fn session_of<F: Fn() -> u32>(d: &Dev<F>) -> SessionData {
    *d.get_session().unwrap()
}

#[test]
fn otaa_happy_path_synchronous_radio() {
    let calls = Cell::new(0u32);
    let random = || {
        calls.set(calls.get() + 1);
        if calls.get() == 1 { 0x0000ABCD } else { 0x00000001 }
    };
    let radio = TestRadio { window_ms: 500, sync_tx_done: Some(1234), ..TestRadio::default() };
    let d: Dev<_> = Device::new(radio, DEVEUI, APPEUI, APPKEY, random);
    let (mut d, r) = step(d, Event::NewSession);
    assert_eq!(r, Ok(Response::TimeoutRequest(5000 + 1234)));
    assert_eq!(&d.get_radio().sent[0][17..19], &[0xCD, 0xAB]);
    let (mut d, r) = step(d, Event::Timeout);
    assert_eq!(r, Ok(Response::WaitingForJoinAccept));
    assert_eq!(d.get_radio().rx_configs[0].frequency, 922_300_000);
    assert_eq!(d.get_radio().rx_configs[0].bandwidth, Bandwidth::_500KHZ);
    d.get_radio().rx = join_accept_bytes();
    let (d, r) = step(d, Event::RadioEvent(Phy::RxDone));
    assert_eq!(r, Ok(Response::NewSession));
    let s = session_of(&d);
    assert_eq!(s.fcnt_up(), 0);
    assert_eq!(s.fcnt_down(), 0);
    // the data uplink goes out synchronously too: RX1 is scheduled at once
    let (mut d, r) = d.send(&[0xDE, 0xAD], 1, true);
    assert_eq!(r, Ok(Response::TimeoutRequest(1234 + 1000)));
    assert_eq!(session_of(&d).fcnt_up(), 1);
    // the second random word picked the data channel: channel 1 of sub-band index 1
    assert_eq!(d.get_radio().tx_configs[1].rf.frequency, 904_100_000);
    let (d, r) = step(d, Event::Timeout);
    assert_eq!(r, Ok(Response::TimeoutRequest(1234 + 1000 + 500)));
}

#[test]
fn otaa_happy_path() {
    let calls = Cell::new(0u32);
    let random = || {
        calls.set(calls.get() + 1);
        if calls.get() == 1 { 0x0000ABCD } else { 0x00000001 }
    };
    let d = new_device(random);
    let (mut d, r) = step(d, Event::NewSession);
    assert_eq!(r, Ok(Response::Idle));
    let req = d.get_radio().sent[0].clone();
    assert_eq!(req.len(), 23);
    assert_eq!(req[0], 0x00);
    assert_eq!(&req[1..9], &APPEUI);
    assert_eq!(&req[9..17], &DEVEUI);
    assert_eq!(&req[17..19], &[0xCD, 0xAB]);
    // sub-band 2 is pinned: channel 0 of sub-band index 1
    let tx = d.get_radio().tx_configs[0];
    assert_eq!(tx.rf.frequency, 903_900_000);
    assert_eq!(tx.pw, 20);
    assert_eq!(tx.rf.bandwidth, Bandwidth::_125KHZ);
    let (d, r) = step(d, Event::RadioEvent(Phy::TxDone(250)));
    assert_eq!(r, Ok(Response::TimeoutRequest(5000 + 250)));
    let (mut d, r) = step(d, Event::Timeout);
    assert_eq!(r, Ok(Response::WaitingForJoinAccept));
    let rx = d.get_radio().rx_configs[0];
    assert_eq!(rx.frequency, 922_300_000);
    assert_eq!(rx.bandwidth, Bandwidth::_500KHZ);
    d.get_radio().rx = join_accept_bytes();
    let (d, r) = step(d, Event::RadioEvent(Phy::RxDone));
    assert_eq!(r, Ok(Response::NewSession));
    let s = session_of(&d);
    assert_eq!(s.fcnt_up(), 0);
    assert_eq!(s.fcnt_down(), 0);
    assert_eq!(s.devaddr(), &DEVADDR);
    assert_ne!(s.newskey(), s.appskey());
}

#[test]
fn join_accept_with_bad_mic_is_ignored() {
    let d = new_device(|| 7);
    let (d, _) = step(d, Event::NewSession);
    let (d, _) = step(d, Event::RadioEvent(Phy::TxDone(0)));
    let (mut d, _) = step(d, Event::Timeout);
    let mut ja = join_accept_bytes();
    ja[16] ^= 0xFF;
    d.get_radio().rx = ja;
    let (d, r) = step(d, Event::RadioEvent(Phy::RxDone));
    assert_eq!(r, Ok(Response::WaitingForJoinAccept));
    assert!(d.get_session().is_none());
    // the window closes: back to idle, from which a timeout retries
    let (d, r) = step(d, Event::Timeout);
    assert_eq!(r, Ok(Response::Idle));
    let (mut d, r) = step(d, Event::Timeout);
    assert_eq!(r, Ok(Response::Idle));
    assert_eq!(d.get_radio().sent.len(), 2);
}

#[test]
fn timeout_in_join_idle_sends_join_request() {
    let d = new_device(|| 0x0000_1234);
    let (mut d, r) = step(d, Event::Timeout);
    assert_eq!(r, Ok(Response::Idle));
    let sent = d.get_radio().sent.clone();
    assert_eq!(sent.len(), 1);
    assert_eq!(&sent[0][17..19], &[0x34, 0x12]);
    let e = new_device(|| 0x0000_1234);
    let (mut e, r2) = step(e, Event::NewSession);
    assert_eq!(r2, Ok(Response::Idle));
    assert_eq!(e.get_radio().sent, sent);
}

#[test]
fn unexpected_events_while_joining_are_refused() {
    let d = new_device(|| 1);
    let (d, r) = step(d, Event::RadioEvent(Phy::Noise));
    assert_eq!(r, Err(Error::NoSession(NoSessionError::UnexpectedEvent)));
    let (d, r) = d.send(&[1], 1, false);
    assert_eq!(r, Err(Error::NoSession(NoSessionError::UnexpectedEvent)));
    let (d, _) = step(d, Event::NewSession);
    let (d, r) = step(d, Event::Timeout);
    assert_eq!(r, Err(Error::NoSession(NoSessionError::UnexpectedEvent)));
    let (d, r) = step(d, Event::RadioEvent(Phy::Noise));
    assert_eq!(r, Ok(Response::SendingJoinRequest));
    let (d, r) = step(d, Event::RadioEvent(Phy::TxDone(10)));
    assert_eq!(r, Ok(Response::TimeoutRequest(5010)));
    let (d, r) = step(d, Event::RadioEvent(Phy::Noise));
    assert_eq!(r, Err(Error::NoSession(NoSessionError::UnexpectedEvent)));
    let (_d, r) = step(d, Event::NewSession);
    assert_eq!(r, Err(Error::NoSession(NoSessionError::UnexpectedEvent)));
}

#[test]
fn confirmed_uplink_rx1_receives_downlink() {
    let mut d = joined(|| 0);
    for _ in 0..7 {
        d = quiet_uplink(d);
    }
    assert_eq!(session_of(&d).fcnt_up(), 7);
    let (d, r) = d.send(&[0xDE, 0xAD], 1, true);
    assert_eq!(r, Ok(Response::SendingDataUp(8)));
    let (d, r) = step(d, Event::RadioEvent(Phy::TxDone(2000)));
    assert_eq!(r, Ok(Response::TimeoutRequest(3000)));
    let (mut d, r) = step(d, Event::Timeout);
    // RX1 lasts the radio's 500 ms window
    assert_eq!(r, Ok(Response::TimeoutRequest(3500)));
    let s = session_of(&d);
    d.get_radio().rx = downlink_bytes(&s, 3, 1, b"hello");
    let (mut d, r) = step(d, Event::RadioEvent(Phy::RxDone));
    assert_eq!(r, Ok(Response::DataDown(3)));
    assert_eq!(session_of(&d).fcnt_down(), 3);
    assert_eq!(session_of(&d).fcnt_up(), 8);
    assert_eq!(d.get_downlink_mac(), None);
    assert_eq!(d.get_downlink_payload(), Some(b"hello".to_vec()));
    assert_eq!(d.get_downlink_payload(), None);
    // back in the idle session
    let (_d, r) = step(d, Event::Timeout);
    assert_eq!(r, Ok(Response::Idle));
}

#[test]
fn confirmed_uplink_both_windows_empty() {
    let d = joined(|| 0);
    let (d, r) = d.send(&[0xDE, 0xAD], 1, true);
    assert_eq!(r, Ok(Response::SendingDataUp(1)));
    let (d, r) = step(d, Event::RadioEvent(Phy::TxDone(0)));
    assert_eq!(r, Ok(Response::TimeoutRequest(1000)));
    let (d, r) = step(d, Event::Timeout);
    assert_eq!(r, Ok(Response::TimeoutRequest(1500)));
    let (d, r) = step(d, Event::Timeout);
    assert_eq!(r, Ok(Response::TimeoutRequest(2000)));
    let (d, r) = step(d, Event::Timeout);
    assert_eq!(r, Ok(Response::TimeoutRequest(2500)));
    let (mut d, r) = step(d, Event::Timeout);
    assert_eq!(r, Ok(Response::NoAck));
    assert_eq!(d.get_radio().cancels, 2);
    // RX1 listened on the downlink channel of the uplink, RX2 on the region's fixed frequency
    let rx = d.get_radio().rx_configs.clone();
    assert_eq!(rx[rx.len() - 2].frequency, 922_300_000);
    assert_eq!(rx[rx.len() - 1].frequency, 923_300_000);
    assert_eq!(rx[rx.len() - 1].bandwidth, Bandwidth::_500KHZ);
    let (_d, r) = step(d, Event::Timeout);
    assert_eq!(r, Ok(Response::Idle));
}

#[test]
fn unconfirmed_uplink_no_downlink() {
    let d = joined(|| 0);
    let (d, r) = d.send(&[0xDE, 0xAD], 1, false);
    assert_eq!(r, Ok(Response::SendingDataUp(1)));
    let (d, _) = step(d, Event::RadioEvent(Phy::TxDone(0)));
    let (d, _) = step(d, Event::Timeout);
    let (d, _) = step(d, Event::Timeout);
    let (d, _) = step(d, Event::Timeout);
    let (_d, r) = step(d, Event::Timeout);
    assert_eq!(r, Ok(Response::ReadyToSend));
}

#[test]
fn rx1_window_is_clamped_to_the_gap_between_windows() {
    let d = joined(|| 0);
    let (mut d, _) = d.send(&[1], 1, false);
    d.get_radio().window_ms = 5000;
    let (d, r) = step(d, Event::RadioEvent(Phy::TxDone(100)));
    assert_eq!(r, Ok(Response::TimeoutRequest(1100)));
    let (d, r) = step(d, Event::Timeout);
    assert_eq!(r, Ok(Response::TimeoutRequest(2100)));
    let (d, r) = step(d, Event::Timeout);
    assert_eq!(r, Ok(Response::TimeoutRequest(2100)));
    // RX2 is not clamped
    let (_d, r) = step(d, Event::Timeout);
    assert_eq!(r, Ok(Response::TimeoutRequest(7100)));
}

fn listening_in_rx1<F: Fn() -> u32>(d: Dev<F>) -> Dev<F> {
    let (d, _) = d.send(&[1], 1, true);
    let (d, _) = step(d, Event::RadioEvent(Phy::TxDone(0)));
    let (d, r) = step(d, Event::Timeout);
    assert_eq!(r, Ok(Response::TimeoutRequest(1500)));
    d
}

#[test]
fn mic_failure_downlink_is_dropped() {
    let d = listening_in_rx1(joined(|| 0));
    let mut d = d;
    let s = session_of(&d);
    let mut frame = downlink_bytes(&s, 3, 1, b"x");
    let last = frame.len() - 1;
    frame[last] ^= 0x5A;
    d.get_radio().rx = frame;
    let (mut d, r) = step(d, Event::RadioEvent(Phy::RxDone));
    assert_eq!(r, Ok(Response::WaitingForDataDown));
    assert_eq!(session_of(&d).fcnt_down(), 0);
    assert_eq!(d.get_downlink_payload(), None);
    // still listening for the window: its timeout moves on to RX2
    let (_d, r) = step(d, Event::Timeout);
    assert_eq!(r, Ok(Response::TimeoutRequest(2000)));
}

#[test]
fn replayed_downlink_is_rejected() {
    let mut d = listening_in_rx1(joined(|| 0));
    let s = session_of(&d);
    d.get_radio().rx = downlink_bytes(&s, 10, 1, b"a");
    let (d, r) = step(d, Event::RadioEvent(Phy::RxDone));
    assert_eq!(r, Ok(Response::DataDown(10)));
    assert_eq!(session_of(&d).fcnt_down(), 10);
    let mut d = listening_in_rx1(d);
    let s = session_of(&d);
    d.get_radio().rx = downlink_bytes(&s, 10, 1, b"b");
    let (d, r) = step(d, Event::RadioEvent(Phy::RxDone));
    assert_eq!(r, Ok(Response::WaitingForDataDown));
    assert_eq!(session_of(&d).fcnt_down(), 10);
}

#[test]
fn downlink_counter_zero_is_accepted_as_reset() {
    let mut d = listening_in_rx1(joined(|| 0));
    let s = session_of(&d);
    d.get_radio().rx = downlink_bytes(&s, 5, 1, b"a");
    let (d, r) = step(d, Event::RadioEvent(Phy::RxDone));
    assert_eq!(r, Ok(Response::DataDown(5)));
    let mut d = listening_in_rx1(d);
    let s = session_of(&d);
    d.get_radio().rx = downlink_bytes(&s, 0, 1, b"b");
    let (d, r) = step(d, Event::RadioEvent(Phy::RxDone));
    assert_eq!(r, Ok(Response::DataDown(0)));
    assert_eq!(session_of(&d).fcnt_down(), 0);
}

#[test]
fn downlink_for_another_device_is_dropped() {
    let mut d = listening_in_rx1(joined(|| 0));
    let s = SessionData::new(*session_of(&d).newskey(), *session_of(&d).appskey(), [9, 9, 9, 9]);
    d.get_radio().rx = downlink_bytes(&s, 3, 1, b"a");
    let (d, r) = step(d, Event::RadioEvent(Phy::RxDone));
    assert_eq!(r, Ok(Response::WaitingForDataDown));
    assert_eq!(session_of(&d).fcnt_down(), 0);
}

#[test]
fn mac_downlink_on_port_zero() {
    let mut d = listening_in_rx1(joined(|| 0));
    let s = session_of(&d);
    // FPort 0 carries MAC commands, here an empty list
    d.get_radio().rx = downlink_bytes(&s, 4, 0, &[]);
    let (mut d, r) = step(d, Event::RadioEvent(Phy::RxDone));
    assert_eq!(r, Ok(Response::DataDown(4)));
    assert_eq!(d.get_downlink_payload(), None);
    assert_eq!(d.get_downlink_mac(), Some(vec![]));
    assert_eq!(d.get_downlink_mac(), None);
}

#[test]
fn uplink_round_trips_through_the_codec() {
    let d = joined(|| 0);
    let (mut d, r) = d.send(&[0xDE, 0xAD, 0xBE, 0xEF], 7, false);
    assert_eq!(r, Ok(Response::SendingDataUp(1)));
    let s = session_of(&d);
    let frame = d.get_radio().sent.last().unwrap().clone();
    assert_eq!(frame.len(), 13 + 4);
    assert_eq!(frame[0], 0x40);
    assert_eq!(&frame[1..5], &DEVADDR);
    assert_eq!(frame[8], 7);
    assert_ne!(&frame[9..13], &[0xDE, 0xAD, 0xBE, 0xEF]);
    match parse_with_factory(frame, XorCrypto) {
        Ok(PhyPayload::Data(DataPayload::Encrypted(p))) => {
            assert!(p.validate_mic(&AES128(*s.newskey()), 0));
            let dec = p.decrypt(Some(&AES128(*s.newskey())), Some(&AES128(*s.appskey())), 0).unwrap();
            assert_eq!(dec.f_port(), Some(7));
            match dec.frm_payload() {
                Ok(FRMPayload::Data(data)) => assert_eq!(data, &[0xDE, 0xAD, 0xBE, 0xEF]),
                _ => panic!("no application payload"),
            }
        }
        _ => panic!("not a data frame"),
    }
}

#[test]
fn confirmed_uplink_header() {
    let d = joined(|| 0);
    let d = quiet_uplink(d);
    let (mut d, _) = d.send(&[], 2, true);
    let frame = d.get_radio().sent.last().unwrap().clone();
    assert_eq!(frame.len(), 13);
    assert_eq!(frame[0], 0x80);
    assert_eq!(frame[5], 0);
    assert_eq!(frame[6], 1);
    assert_eq!(frame[7], 0);
    assert_eq!(frame[8], 2);
}

#[test]
fn uplink_counter_increments_per_uplink() {
    let mut d = joined(|| 0);
    for i in 0..3u32 {
        assert_eq!(session_of(&d).fcnt_up(), i);
        d = quiet_uplink(d);
        assert_eq!(session_of(&d).fcnt_up(), i + 1);
    }
}

#[test]
fn oversized_payload_fails_assembly() {
    let d = joined(|| 0);
    let (d, _) = d.send(&[0u8; 243], 1, false);
    assert_eq!(session_of(&d).fcnt_up(), 1);
    let d = joined(|| 0);
    let (mut d, r) = d.send(&[0u8; 244], 1, false);
    assert_eq!(r, Err(Error::Session(SessionError::AssemblyFailed)));
    assert_eq!(session_of(&d).fcnt_up(), 0);
    // nothing went to the radio after the join-request
    assert_eq!(d.get_radio().sent.len(), 1);
    let (_d, r) = d.send(&[1], 1, false);
    assert_eq!(r, Ok(Response::SendingDataUp(1)));
}

#[test]
fn payload_on_port_zero_fails_assembly() {
    let d = joined(|| 0);
    let (d, r) = d.send(&[1, 2], 0, false);
    assert_eq!(r, Err(Error::Session(SessionError::AssemblyFailed)));
    assert_eq!(session_of(&d).fcnt_up(), 0);
}

#[test]
fn session_idle_ignores_timeout_and_new_session() {
    let d = joined(|| 0);
    let (d, r) = step(d, Event::Timeout);
    assert_eq!(r, Ok(Response::Idle));
    let (d, r) = step(d, Event::NewSession);
    assert_eq!(r, Ok(Response::Idle));
    let (d, r) = step(d, Event::RadioEvent(Phy::Noise));
    assert_eq!(r, Err(Error::Session(SessionError::UnexpectedEvent)));
    assert_eq!(session_of(&d).fcnt_up(), 0);
}

#[test]
fn every_session_state_answers_every_event() {
    let d = joined(|| 0);
    let (d, _) = d.send(&[1], 1, false);
    // sending: a timeout is tolerated, other requests refused
    let (d, r) = step(d, Event::Timeout);
    assert_eq!(r, Ok(Response::Idle));
    let (d, r) = step(d, Event::NewSession);
    assert_eq!(r, Err(Error::Session(SessionError::UnexpectedEvent)));
    let (d, r) = step(d, Event::RadioEvent(Phy::Noise));
    assert_eq!(r, Ok(Response::SendingDataUp(1)));
    let (d, _) = step(d, Event::RadioEvent(Phy::TxDone(0)));
    // waiting for the window
    let (d, r) = step(d, Event::RadioEvent(Phy::Noise));
    assert_eq!(r, Err(Error::Session(SessionError::UnexpectedEvent)));
    let (d, r) = d.send(&[1], 1, false);
    assert_eq!(r, Err(Error::Session(SessionError::UnexpectedEvent)));
    let (d, _) = step(d, Event::Timeout);
    // listening
    let (d, r) = step(d, Event::RadioEvent(Phy::Noise));
    assert_eq!(r, Ok(Response::WaitingForDataDown));
    let (d, r) = step(d, Event::NewSession);
    assert_eq!(r, Err(Error::Session(SessionError::UnexpectedEvent)));
    assert_eq!(session_of(&d).fcnt_up(), 1);
}

#[test]
fn failed_rx_cancel_is_reported() {
    let d = joined(|| 0);
    let (d, _) = d.send(&[1], 1, false);
    let (d, _) = step(d, Event::RadioEvent(Phy::TxDone(0)));
    let (mut d, _) = step(d, Event::Timeout);
    d.get_radio().fail_cancel = true;
    let (mut d, r) = step(d, Event::Timeout);
    assert_eq!(r, Err(Error::Radio(lorawan_device::radio::Error::PhyError(PhyError::RxError))));
    d.get_radio().fail_cancel = false;
    // the radio is idle now: the next timeout moves on to RX2
    let (_d, r) = step(d, Event::Timeout);
    assert_eq!(r, Ok(Response::TimeoutRequest(2000)));
}

#[test]
fn accept_downlink_decides_on_all_conditions() {
    let s = SessionData::new([1; 16], [2; 16], DEVADDR);
    let mut frame = vec![0x60, 4, 3, 2, 1, 0, 3, 0, 1, 0xAA, 0, 0, 0, 0];
    assert_eq!(accept_downlink(&s, &frame, true), Some(3));
    assert_eq!(accept_downlink(&s, &frame, false), None);
    frame[1] = 5;
    assert_eq!(accept_downlink(&s, &frame, true), None);
    frame[1] = 4;
    frame[7] = 1;
    assert_eq!(accept_downlink(&s, &frame, true), Some(259));
    // a join-accept type is not a data frame
    frame[0] = 0x20;
    assert_eq!(accept_downlink(&s, &frame, true), None);
    assert_eq!(accept_downlink(&s, &frame[..11], true), None);
}

#[test]
fn accept_downlink_requires_newer_counter() {
    let mut s = SessionData::new([1; 16], [2; 16], DEVADDR);
    s.set_fcnt_down(10);
    let frame = |f: u8| vec![0x60, 4, 3, 2, 1, 0, f, 0, 1, 0xAA, 0, 0, 0, 0];
    assert_eq!(accept_downlink(&s, &frame(10), true), None);
    assert_eq!(accept_downlink(&s, &frame(9), true), None);
    assert_eq!(accept_downlink(&s, &frame(11), true), Some(11));
    assert_eq!(accept_downlink(&s, &frame(0), true), Some(0));
    assert!(s.accepts_fcnt_down(0));
    assert!(!s.accepts_fcnt_down(10));
}

#[test]
fn credentials_are_kept() {
    let d = new_device(|| 0);
    let c = d.get_credentials();
    assert_eq!(c.deveui(), &DEVEUI);
    assert_eq!(c.appeui(), &APPEUI);
    assert_eq!(c.appkey(), &APPKEY);
}

#[test]
fn frame_longer_than_the_buffer_is_dropped() {
    let s = SessionData::new([1; 16], [2; 16], DEVADDR);
    let mut frame = vec![0x60, 4, 3, 2, 1, 0, 3, 0, 1];
    frame.resize(257, 0);
    assert_eq!(accept_downlink(&s, &frame, true), None);
    frame.truncate(256);
    assert_eq!(accept_downlink(&s, &frame, true), Some(3));
    let mut d = listening_in_rx1(joined(|| 0));
    let mut big = downlink_bytes(&session_of(&d), 3, 1, b"a");
    big.resize(300, 0);
    d.get_radio().rx = big;
    let (d, r) = step(d, Event::RadioEvent(Phy::RxDone));
    assert_eq!(r, Ok(Response::WaitingForDataDown));
    assert_eq!(session_of(&d).fcnt_down(), 0);
}

#[test]
fn radio_errors_convert() {
    let e: Error = lorawan_device::radio::Error::BadState.into();
    assert_eq!(e, Error::Radio(lorawan_device::radio::Error::BadState));
}

#[test]
fn mac_commands_in_fopts_are_handed_out() {
    let mut d = listening_in_rx1(joined(|| 0));
    let s = session_of(&d);
    let mut cmd = LinkCheckAnsCreator::new();
    cmd.set_margin(20).set_gateway_count(3);
    let cmds: Vec<&dyn SerializableMacCommand> = vec![&cmd];
    let mut phy = DataPayloadCreator::with_options([0u8; 256], XorCrypto).unwrap();
    phy.set_uplink(false).set_confirmed(false).set_f_port(1).set_dev_addr(s.devaddr()).set_fcnt(2);
    let frame = phy
        .build(b"app", &cmds, &AES128(*s.newskey()), &AES128(*s.appskey()))
        .unwrap()
        .to_vec();
    d.get_radio().rx = frame;
    let (mut d, r) = step(d, Event::RadioEvent(Phy::RxDone));
    assert_eq!(r, Ok(Response::DataDown(2)));
    assert_eq!(d.get_downlink_mac(), Some(vec![0x02, 20, 3]));
    assert_eq!(d.get_downlink_payload(), None);
}

#[test]
fn short_frame_with_fopts_is_dropped() {
    let s = SessionData::new([1; 16], [2; 16], DEVADDR);
    // 12 bytes announcing 5 bytes of FOpts: no room for them and the MIC
    let frame = vec![0x60, 4, 3, 2, 1, 0x05, 3, 0, 1, 0, 0, 0];
    assert_eq!(accept_downlink(&s, &frame, true), None);
    let mut d = listening_in_rx1(joined(|| 0));
    d.get_radio().rx = frame;
    let (d, r) = step(d, Event::RadioEvent(Phy::RxDone));
    assert_eq!(r, Ok(Response::WaitingForDataDown));
    assert_eq!(session_of(&d).fcnt_down(), 0);
}
