use vstd::prelude::*;
use lorawan_encoding::creator::{DataPayloadCreator, JoinRequestCreator};
use lorawan_encoding::keys::{CryptoFactory, AES128};
use lorawan_encoding::parser::{
    parse_with_factory, DataHeader, DataPayload, DecryptedJoinAcceptPayload, DevAddr, DevNonce,
    EncryptedDataPayload, PhyPayload, EUI64,
};

verus! {

/// lorawan_encoding's decrypted join-accept, carried opaquely from
/// `open_join_accept` to the functions that read it.
#[verifier::external_type_specification]
#[verifier::external_body]
#[verifier::reject_recursive_types(T)]
#[verifier::reject_recursive_types(F)]
pub struct ExDecryptedJoinAcceptPayload<T, F>(DecryptedJoinAcceptPayload<T, F>);

/// The bytes of a join-request before its MIC: MHDR 0, AppEUI, DevEUI, DevNonce.
pub open spec fn join_request_header(appeui: Seq<u8>, deveui: Seq<u8>, devnonce: Seq<u8>) -> Seq<
    u8,
> {
    seq![0u8] + appeui + deveui + devnonce
}

/// The MHDR of a data uplink.
pub open spec fn uplink_mhdr(confirmed: bool) -> u8 {
    if confirmed {
        0x80
    } else {
        0x40
    }
}

/// The bytes of a data uplink before its FRMPayload: MHDR, DevAddr, an empty
/// FCtrl, the low 16 bits of FCnt (little endian), FPort.
pub open spec fn data_uplink_header(confirmed: bool, fport: u8, dev_addr: Seq<u8>, fcnt: u32) -> Seq<
    u8,
> {
    seq![uplink_mhdr(confirmed)] + dev_addr + seq![
        0u8,
        (fcnt % 256) as u8,
        ((fcnt / 256) % 256) as u8,
        fport,
    ]
}

/// Whether the codec takes `b` for a data frame: at least 12 bytes, a data
/// message type in the MHDR, and at least as many bytes as the FHDR that FCtrl
/// announces (7 bytes and the FOpts). This does not leave room for the MHDR
/// and the MIC around the FHDR: see `has_frame_room`.
pub open spec fn is_data_frame(b: Seq<u8>) -> bool {
    &&& b.len() >= 12
    &&& 2 <= b[0] / 32 <= 5
    &&& 7 + b[5] % 16 <= b.len()
}

/// Whether a data frame has room for MHDR, FHDR with its FOpts, FPort and MIC.
pub open spec fn has_frame_room(b: Seq<u8>) -> bool {
    12 + b[5] % 16 <= b.len()
}

/// Where the encrypted FRMPayload of a data frame starts.
pub open spec fn frm_payload_start(b: Seq<u8>) -> int {
    1 + 7 + (b[5] % 16) + 1
}

/// Whether the codec takes `b` for a join-accept: 17 or 33 bytes with the
/// join-accept message type.
pub open spec fn is_join_accept_frame(b: Seq<u8>) -> bool {
    (b.len() == 17 || b.len() == 33) && b[0] / 32 == 1
}

/// Relies on lorawan_encoding's JoinRequestCreator: it writes MHDR, AppEUI,
/// DevEUI and DevNonce as given and appends the 4-byte MIC signed with the AppKey.
#[verifier::external_body]
pub(crate) fn build_join_request<C: CryptoFactory + Default>(
    appeui: &[u8; 8],
    deveui: &[u8; 8],
    devnonce: &[u8; 2],
    appkey: &[u8; 16],
) -> (r: Vec<u8>)
    ensures
        r@.len() == 23,
        r@.subrange(0, 19) == join_request_header(appeui@, deveui@, devnonce@),
{
    let mut phy = JoinRequestCreator::with_options([0u8; 23], C::default()).unwrap();
    phy.set_app_eui(EUI64::from(appeui)).set_dev_eui(EUI64::from(deveui)).set_dev_nonce(
        DevNonce::from(devnonce),
    );
    phy.build(&AES128(*appkey)).unwrap().to_vec()
}

/// Relies on lorawan_encoding's DataPayloadCreator: with FPort set and no MAC
/// commands it writes the header as given, the FRMPayload encrypted and a 4-byte
/// MIC; it refuses a payload on FPort 0.
#[verifier::external_body]
pub(crate) fn build_data_uplink<C: CryptoFactory + Default>(
    confirmed: bool,
    fport: u8,
    dev_addr: &[u8; 4],
    fcnt: u32,
    payload: &[u8],
    nwkskey: &[u8; 16],
    appskey: &[u8; 16],
) -> (r: Option<Vec<u8>>)
    requires
        payload@.len() <= 243,
    ensures
        r.is_some() == (fport != 0 || payload@.len() == 0),
        r matches Some(v) ==> v@.len() == 13 + payload@.len() && v@.subrange(0, 9)
            == data_uplink_header(confirmed, fport, dev_addr@, fcnt),
{
    let mut phy = DataPayloadCreator::with_options([0u8; 256], C::default()).unwrap();
    phy.set_confirmed(confirmed).set_f_port(fport).set_dev_addr(DevAddr::from(dev_addr)).set_fcnt(
        fcnt,
    );
    match phy.build(payload, &[], &AES128(*nwkskey), &AES128(*appskey)) {
        Ok(bytes) => Some(bytes.to_vec()),
        Err(_) => None,
    }
}

/// Relies on lorawan_encoding's parse_with_factory: it yields an encrypted
/// data payload exactly for the frames that `is_data_frame` describes.
#[verifier::external_body]
pub(crate) fn parses_as_data<C: CryptoFactory + Default>(buf: &[u8]) -> (r: bool)
    ensures
        r == is_data_frame(buf@),
{
    matches!(
        parse_with_factory(buf.to_vec(), C::default()),
        Ok(PhyPayload::Data(DataPayload::Encrypted(_)))
    )
}

/// Relies on lorawan_encoding's EncryptedDataPayload::validate_mic: whether the
/// frame's MIC matches the one computed under the NwkSKey for the 32-bit FCnt.
#[verifier::external_body]
pub(crate) fn data_mic_is_valid<C: CryptoFactory + Default>(
    buf: &[u8],
    nwkskey: &[u8; 16],
    fcnt: u32,
) -> (r: bool)
    requires
        is_data_frame(buf@),
        buf@.len() <= 256,
{
    let p = EncryptedDataPayload::new_with_factory(buf.to_vec(), C::default()).unwrap();
    p.validate_mic(&AES128(*nwkskey), fcnt)
}

/// Relies on lorawan_encoding's EncryptedDataPayload::decrypt: it decrypts the
/// FRMPayload in place (NwkSKey on FPort 0, AppSKey otherwise) and leaves the
/// header and the MIC as they were.
#[verifier::external_body]
pub(crate) fn decrypt_data<C: CryptoFactory + Default>(
    buf: &[u8],
    nwkskey: &[u8; 16],
    appskey: &[u8; 16],
    fcnt: u32,
) -> (r: Vec<u8>)
    requires
        is_data_frame(buf@),
        has_frame_room(buf@),
        buf@.len() <= 256,
    ensures
        r@.len() == buf@.len(),
        forall|i: int|
            0 <= i < buf@.len() && (i < frm_payload_start(buf@) || i >= buf@.len() - 4) ==> r@[i]
                == buf@[i],
{
    let p = EncryptedDataPayload::new_with_factory(buf.to_vec(), C::default()).unwrap();
    let d = p.decrypt(Some(&AES128(*nwkskey)), Some(&AES128(*appskey)), fcnt).unwrap();
    d.as_data_bytes().to_vec()
}

/// Relies on lorawan_encoding's DecryptedJoinAcceptPayload::new_with_factory:
/// it decrypts a join-accept with the AppKey and keeps it only if its MIC is valid.
#[verifier::external_body]
pub(crate) fn open_join_accept<C: CryptoFactory + Default>(buf: &[u8], appkey: &[u8; 16]) -> (r:
    Option<DecryptedJoinAcceptPayload<Vec<u8>, C>>)
    ensures
        !is_join_accept_frame(buf@) ==> r.is_none(),
{
    DecryptedJoinAcceptPayload::new_with_factory(buf.to_vec(), &AES128(*appkey), C::default()).ok()
}

/// Relies on lorawan_encoding's DecryptedJoinAcceptPayload::derive_newskey:
/// the NwkSKey from AppNonce, NetID and DevNonce under the AppKey.
#[verifier::external_body]
pub(crate) fn derive_newskey<C: CryptoFactory + Default>(
    join_accept: &DecryptedJoinAcceptPayload<Vec<u8>, C>,
    devnonce: &[u8; 2],
    appkey: &[u8; 16],
) -> (r: [u8; 16]) {
    join_accept.derive_newskey(&DevNonce::from(devnonce), &AES128(*appkey)).0
}

/// Relies on lorawan_encoding's DecryptedJoinAcceptPayload::derive_appskey:
/// the AppSKey from AppNonce, NetID and DevNonce under the AppKey.
#[verifier::external_body]
pub(crate) fn derive_appskey<C: CryptoFactory + Default>(
    join_accept: &DecryptedJoinAcceptPayload<Vec<u8>, C>,
    devnonce: &[u8; 2],
    appkey: &[u8; 16],
) -> (r: [u8; 16]) {
    join_accept.derive_appskey(&DevNonce::from(devnonce), &AES128(*appkey)).0
}

/// Relies on lorawan_encoding's DecryptedJoinAcceptPayload::dev_addr: the
/// DevAddr that the network assigned.
#[verifier::external_body]
pub(crate) fn join_accept_dev_addr<C: CryptoFactory + Default>(
    join_accept: &DecryptedJoinAcceptPayload<Vec<u8>, C>,
) -> (r: [u8; 4]) {
    let mut a = [0u8; 4];
    a.copy_from_slice(join_accept.dev_addr().as_ref());
    a
}

/// Relies on lorawan_encoding's DecryptedJoinAcceptPayload::c_f_list: the five
/// CFList frequencies in Hz, if the join-accept carries a CFList.
#[verifier::external_body]
pub(crate) fn join_accept_cf_list<C: CryptoFactory + Default>(
    join_accept: &DecryptedJoinAcceptPayload<Vec<u8>, C>,
) -> (r: Option<[u32; 5]>) {
    join_accept.c_f_list().map(|l| [l[0].value(), l[1].value(), l[2].value(), l[3].value(), l[4].value()])
}

} // verus!
