use vstd::prelude::*;

verus! {

/// The identity of the device and its root key; fixed once built.
#[derive(Debug, Clone, Copy)]
pub struct Credentials {
    deveui: [u8; 8],
    appeui: [u8; 8],
    appkey: [u8; 16],
}

impl Credentials {
    pub closed spec fn spec_deveui(&self) -> [u8; 8] {
        self.deveui
    }

    pub closed spec fn spec_appeui(&self) -> [u8; 8] {
        self.appeui
    }

    pub closed spec fn spec_appkey(&self) -> [u8; 16] {
        self.appkey
    }

    pub closed spec fn new_spec(appeui: [u8; 8], deveui: [u8; 8], appkey: [u8; 16]) -> Credentials {
        Credentials { deveui, appeui, appkey }
    }

    pub fn new(appeui: [u8; 8], deveui: [u8; 8], appkey: [u8; 16]) -> (r: Credentials)
        ensures
            r == Credentials::new_spec(appeui, deveui, appkey),
            r.spec_appeui() == appeui,
            r.spec_deveui() == deveui,
            r.spec_appkey() == appkey,
    {
        Credentials { deveui, appeui, appkey }
    }

    pub fn appeui(&self) -> (r: &[u8; 8])
        ensures
            *r == self.spec_appeui(),
    {
        &self.appeui
    }

    pub fn deveui(&self) -> (r: &[u8; 8])
        ensures
            *r == self.spec_deveui(),
    {
        &self.deveui
    }

    pub fn appkey(&self) -> (r: &[u8; 16])
        ensures
            *r == self.spec_appkey(),
    {
        &self.appkey
    }
}

/// The state of an active session: its address, its keys and its frame counters.
#[derive(Debug, Clone, Copy)]
pub struct SessionData {
    newskey: [u8; 16],
    appskey: [u8; 16],
    devaddr: [u8; 4],
    fcnt_up: u32,
    fcnt_down: u32,
}

impl SessionData {
    pub closed spec fn spec_newskey(&self) -> [u8; 16] {
        self.newskey
    }

    pub closed spec fn spec_appskey(&self) -> [u8; 16] {
        self.appskey
    }

    pub closed spec fn spec_devaddr(&self) -> [u8; 4] {
        self.devaddr
    }

    pub closed spec fn spec_fcnt_up(&self) -> u32 {
        self.fcnt_up
    }

    pub closed spec fn spec_fcnt_down(&self) -> u32 {
        self.fcnt_down
    }

    pub closed spec fn new_spec(newskey: [u8; 16], appskey: [u8; 16], devaddr: [u8; 4]) -> SessionData {
        SessionData { newskey, appskey, devaddr, fcnt_up: 0, fcnt_down: 0 }
    }

    /// A fresh session: both frame counters at 0.
    pub fn new(newskey: [u8; 16], appskey: [u8; 16], devaddr: [u8; 4]) -> (r: SessionData)
        ensures
            r == SessionData::new_spec(newskey, appskey, devaddr),
            r.spec_newskey() == newskey,
            r.spec_appskey() == appskey,
            r.spec_devaddr() == devaddr,
            r.spec_fcnt_up() == 0,
            r.spec_fcnt_down() == 0,
    {
        SessionData { newskey, appskey, devaddr, fcnt_up: 0, fcnt_down: 0 }
    }

    pub fn newskey(&self) -> (r: &[u8; 16])
        ensures
            *r == self.spec_newskey(),
    {
        &self.newskey
    }

    pub fn appskey(&self) -> (r: &[u8; 16])
        ensures
            *r == self.spec_appskey(),
    {
        &self.appskey
    }

    pub fn devaddr(&self) -> (r: &[u8; 4])
        ensures
            *r == self.spec_devaddr(),
    {
        &self.devaddr
    }

    pub fn fcnt_up(&self) -> (r: u32)
        ensures
            r == self.spec_fcnt_up(),
    {
        self.fcnt_up
    }

    pub fn fcnt_down(&self) -> (r: u32)
        ensures
            r == self.spec_fcnt_down(),
    {
        self.fcnt_down
    }

    pub fn fcnt_up_increment(&mut self)
        requires
            old(self).spec_fcnt_up() < u32::MAX,
        ensures
            final(self).spec_fcnt_up() == old(self).spec_fcnt_up() + 1,
            final(self).spec_fcnt_down() == old(self).spec_fcnt_down(),
            final(self).spec_newskey() == old(self).spec_newskey(),
            final(self).spec_appskey() == old(self).spec_appskey(),
            final(self).spec_devaddr() == old(self).spec_devaddr(),
    {
        self.fcnt_up = self.fcnt_up + 1;
    }

    /// Whether a downlink with counter `fcnt` may be admitted: it must be newer
    /// than the last one, or 0 (the network reset its counter).
    pub fn accepts_fcnt_down(&self, fcnt: u32) -> (r: bool)
        ensures
            r == (fcnt > self.spec_fcnt_down() || fcnt == 0),
    {
        fcnt > self.fcnt_down || fcnt == 0
    }

    /// Admits a downlink with counter `fcnt`.
    pub fn set_fcnt_down(&mut self, fcnt: u32)
        ensures
            final(self).spec_fcnt_down() == fcnt,
            final(self).spec_fcnt_up() == old(self).spec_fcnt_up(),
            final(self).spec_newskey() == old(self).spec_newskey(),
            final(self).spec_appskey() == old(self).spec_appskey(),
            final(self).spec_devaddr() == old(self).spec_devaddr(),
    {
        self.fcnt_down = fcnt;
    }
}

} // verus!
