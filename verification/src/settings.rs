use vstd::prelude::*;

use crate::text::{ipv4_text, parse_usize, parses_as_ipv4, same_text, usize_text};

verus! {

/// Whether one kind of bundle is sent to VOR.
#[derive(Clone, Copy, PartialEq, Eq, PartialOrd, Ord, Debug, Structural)]
pub enum VorFlag {
    /// Send this bundle variant
    Include,
    /// Skip this bundle
    Skip,
}

/// The truth value that a flag stands for: `Include` is `true`.
pub open spec fn flag_bool(f: VorFlag) -> bool {
    f == VorFlag::Include
}

/// The flag that a truth value stands for.
pub open spec fn bool_flag(b: bool) -> VorFlag {
    if b { VorFlag::Include } else { VorFlag::Skip }
}

/// The opposite flag.
pub open spec fn flag_switched(f: VorFlag) -> VorFlag {
    match f {
        VorFlag::Include => VorFlag::Skip,
        VorFlag::Skip => VorFlag::Include,
    }
}

impl VorFlag {
    /// Get the opposite flag
    pub fn switch(self) -> (r: Self)
        ensures
            r == flag_switched(self),
    {
        match self {
            VorFlag::Include => VorFlag::Skip,
            VorFlag::Skip => VorFlag::Include,
        }
    }
}

impl Default for VorFlag {
    fn default() -> (r: Self)
        ensures
            r == VorFlag::Skip,
    {
        VorFlag::Skip
    }
}

impl From<VorFlag> for bool {
    fn from(value: VorFlag) -> (r: bool) {
        match value {
            VorFlag::Include => true,
            VorFlag::Skip => false,
        }
    }
}

impl vstd::std_specs::convert::FromSpecImpl<VorFlag> for bool {
    open spec fn obeys_from_spec() -> bool {
        true
    }

    open spec fn from_spec(value: VorFlag) -> bool {
        flag_bool(value)
    }
}

impl From<bool> for VorFlag {
    fn from(value: bool) -> (r: VorFlag) {
        if value {
            VorFlag::Include
        } else {
            VorFlag::Skip
        }
    }
}

impl vstd::std_specs::convert::FromSpecImpl<bool> for VorFlag {
    open spec fn obeys_from_spec() -> bool {
        true
    }

    open spec fn from_spec(value: bool) -> VorFlag {
        bool_flag(value)
    }
}

/// Switching a flag twice gives the flag back, and a switched flag always
/// differs from the original.
pub proof fn lemma_switch_involution(f: VorFlag)
    ensures
        flag_switched(flag_switched(f)) == f,
        flag_switched(f) != f,
        flag_bool(flag_switched(f)) == !flag_bool(f),
{
}

/// A flag survives the trip to `bool` and back, and so does a `bool`.
pub proof fn lemma_flag_bool_roundtrip(f: VorFlag, b: bool)
    ensures
        bool_flag(flag_bool(f)) == f,
        flag_bool(bool_flag(b)) == b,
{
}

/// The kinds of data whose sending to VOR can be switched on and off.
#[derive(Clone, Copy, PartialEq, Eq, Debug, Structural)]
pub enum SendFlag {
    /// The current cue message
    Cue,
    /// Aux faders
    Aux,
    /// Bus faders
    Bus,
    /// DCA faders
    Dca,
    /// Channel faders
    Channel,
    /// Main faders
    Main,
    /// Matrix faders
    Matrix,
}

/// The flag named by a command text, if any.
pub open spec fn flag_named(name: Seq<char>) -> Option<SendFlag> {
    if name == "aux"@ {
        Some(SendFlag::Aux)
    } else if name == "bus"@ {
        Some(SendFlag::Bus)
    } else if name == "channel"@ {
        Some(SendFlag::Channel)
    } else if name == "cue"@ {
        Some(SendFlag::Cue)
    } else if name == "dca"@ {
        Some(SendFlag::Dca)
    } else if name == "main"@ {
        Some(SendFlag::Main)
    } else if name == "matrix"@ {
        Some(SendFlag::Matrix)
    } else {
        None
    }
}

/// Looks up the flag that a command text names: `"aux"`, `"bus"`,
/// `"channel"`, `"cue"`, `"dca"`, `"main"` or `"matrix"`.
pub fn flag_from_name(name: &str) -> (r: Option<SendFlag>)
    ensures
        r == flag_named(name@),
{
    if same_text(name, "aux") {
        Some(SendFlag::Aux)
    } else if same_text(name, "bus") {
        Some(SendFlag::Bus)
    } else if same_text(name, "channel") {
        Some(SendFlag::Channel)
    } else if same_text(name, "cue") {
        Some(SendFlag::Cue)
    } else if same_text(name, "dca") {
        Some(SendFlag::Dca)
    } else if same_text(name, "main") {
        Some(SendFlag::Main)
    } else if same_text(name, "matrix") {
        Some(SendFlag::Matrix)
    } else {
        None
    }
}

/// Application settings
#[derive(Debug, Clone, PartialEq, Eq, PartialOrd, Ord)]
pub struct AppSettings {
    /// X32 IP Address
    pub x32_ip: String,
    /// Vor IP Address
    pub vor_ip: String,
    /// Vor Port
    pub vor_port: String,
    /// Send cue bundle
    pub send_cue: VorFlag,
    /// Send aux faders
    pub send_aux: VorFlag,
    /// Send bus faders
    pub send_bus: VorFlag,
    /// Send DCA faders
    pub send_dca: VorFlag,
    /// Send channel faders
    pub send_channel: VorFlag,
    /// Send main faders
    pub send_main: VorFlag,
    /// Send matrix faders
    pub send_matrix: VorFlag,
}

/// The settings as mathematical values: the three texts as character
/// sequences and the seven flags.
#[verifier::ext_equal]
pub struct SettingsView {
    pub x32_ip: Seq<char>,
    pub vor_ip: Seq<char>,
    pub vor_port: Seq<char>,
    pub send_cue: VorFlag,
    pub send_aux: VorFlag,
    pub send_bus: VorFlag,
    pub send_dca: VorFlag,
    pub send_channel: VorFlag,
    pub send_main: VorFlag,
    pub send_matrix: VorFlag,
}

impl View for AppSettings {
    type V = SettingsView;

    open spec fn view(&self) -> SettingsView {
        SettingsView {
            x32_ip: self.x32_ip@,
            vor_ip: self.vor_ip@,
            vor_port: self.vor_port@,
            send_cue: self.send_cue,
            send_aux: self.send_aux,
            send_bus: self.send_bus,
            send_dca: self.send_dca,
            send_channel: self.send_channel,
            send_main: self.send_main,
            send_matrix: self.send_matrix,
        }
    }
}

impl SettingsView {
    /// The value of one flag.
    pub open spec fn flag(self, k: SendFlag) -> VorFlag {
        match k {
            SendFlag::Cue => self.send_cue,
            SendFlag::Aux => self.send_aux,
            SendFlag::Bus => self.send_bus,
            SendFlag::Dca => self.send_dca,
            SendFlag::Channel => self.send_channel,
            SendFlag::Main => self.send_main,
            SendFlag::Matrix => self.send_matrix,
        }
    }

    /// These settings with one flag replaced.
    pub open spec fn with_flag(self, k: SendFlag, f: VorFlag) -> SettingsView {
        match k {
            SendFlag::Cue => SettingsView { send_cue: f, ..self },
            SendFlag::Aux => SettingsView { send_aux: f, ..self },
            SendFlag::Bus => SettingsView { send_bus: f, ..self },
            SendFlag::Dca => SettingsView { send_dca: f, ..self },
            SendFlag::Channel => SettingsView { send_channel: f, ..self },
            SendFlag::Main => SettingsView { send_main: f, ..self },
            SendFlag::Matrix => SettingsView { send_matrix: f, ..self },
        }
    }

    /// These settings with one flag switched.
    pub open spec fn toggled(self, k: SendFlag) -> SettingsView {
        self.with_flag(k, flag_switched(self.flag(k)))
    }
}

/// The settings a fresh installation starts from: no X32 address, VOR on
/// 127.0.0.1 port 3333, cue and DCA bundles sent, the rest skipped.
pub open spec fn default_settings() -> SettingsView {
    SettingsView {
        x32_ip: Seq::empty(),
        vor_ip: "127.0.0.1"@,
        vor_port: "3333"@,
        send_cue: VorFlag::Include,
        send_aux: VorFlag::Skip,
        send_bus: VorFlag::Skip,
        send_dca: VorFlag::Include,
        send_channel: VorFlag::Skip,
        send_main: VorFlag::Skip,
        send_matrix: VorFlag::Skip,
    }
}

/// Whether a port value may be used for VOR: 1024 to 65535.
pub open spec fn port_in_range(p: usize) -> bool {
    1024 <= p <= 65535
}

/// Whether a port text is taken: std parses it as a `usize` in range.
pub open spec fn port_text_accepted(parsed: Option<usize>) -> bool {
    match parsed {
        Some(p) => port_in_range(p),
        None => false,
    }
}

impl Default for AppSettings {
    fn default() -> (r: Self)
        ensures
            r@ == default_settings(),
    {
        AppSettings {
            x32_ip: String::new(),
            vor_ip: "127.0.0.1".to_owned(),
            vor_port: "3333".to_owned(),
            send_cue: VorFlag::Include,
            send_aux: VorFlag::Skip,
            send_bus: VorFlag::Skip,
            send_dca: VorFlag::Include,
            send_channel: VorFlag::Skip,
            send_main: VorFlag::Skip,
            send_matrix: VorFlag::Skip,
        }
    }
}

impl AppSettings {
    /// The value of one flag.
    pub fn flag(&self, k: SendFlag) -> (r: VorFlag)
        ensures
            r == self@.flag(k),
    {
        match k {
            SendFlag::Cue => self.send_cue,
            SendFlag::Aux => self.send_aux,
            SendFlag::Bus => self.send_bus,
            SendFlag::Dca => self.send_dca,
            SendFlag::Channel => self.send_channel,
            SendFlag::Main => self.send_main,
            SendFlag::Matrix => self.send_matrix,
        }
    }

    /// Switch one flag, leaving everything else as it was.
    pub fn toggle(&mut self, k: SendFlag)
        ensures
            final(self)@ == old(self)@.toggled(k),
    {
        match k {
            SendFlag::Cue => self.send_cue = self.send_cue.switch(),
            SendFlag::Aux => self.send_aux = self.send_aux.switch(),
            SendFlag::Bus => self.send_bus = self.send_bus.switch(),
            SendFlag::Dca => self.send_dca = self.send_dca.switch(),
            SendFlag::Channel => self.send_channel = self.send_channel.switch(),
            SendFlag::Main => self.send_main = self.send_main.switch(),
            SendFlag::Matrix => self.send_matrix = self.send_matrix.switch(),
        }
    }

    /// Switch the flag that `name` names; a text that names no flag leaves
    /// the settings as they are. Returns the flag that was switched.
    pub fn set_flag(&mut self, name: &str) -> (r: Option<SendFlag>)
        ensures
            r == flag_named(name@),
            match r {
                Some(k) => final(self)@ == old(self)@.toggled(k),
                None => final(self)@ == old(self)@,
            },
    {
        let r = flag_from_name(name);
        match r {
            Some(k) => self.toggle(k),
            None => {},
        }
        r
    }

    /// Take `ip` as the X32 address where `valid` says that it is an IPv4
    /// address; otherwise change nothing. Returns `valid`.
    pub fn accept_x32_ip(&mut self, ip: &str, valid: bool) -> (r: bool)
        ensures
            r == valid,
            valid ==> final(self)@ == (SettingsView { x32_ip: ip@, ..old(self)@ }),
            !valid ==> final(self)@ == old(self)@,
    {
        if valid {
            self.x32_ip = ip.to_owned();
        }
        valid
    }

    /// Set the X32 address, if std parses `ip` as an IPv4 address. Returns
    /// whether the address was taken.
    pub fn set_x32(&mut self, ip: &str) -> (r: bool)
        ensures
            r == ipv4_text(ip@),
            r ==> final(self)@ == (SettingsView { x32_ip: ip@, ..old(self)@ }),
            !r ==> final(self)@ == old(self)@,
    {
        let valid = parses_as_ipv4(ip);
        self.accept_x32_ip(ip, valid)
    }

    /// Take `ip` as the VOR address where `valid` says that it is an IPv4
    /// address; otherwise change nothing. Returns `valid`.
    pub fn accept_vor_ip(&mut self, ip: &str, valid: bool) -> (r: bool)
        ensures
            r == valid,
            valid ==> final(self)@ == (SettingsView { vor_ip: ip@, ..old(self)@ }),
            !valid ==> final(self)@ == old(self)@,
    {
        if valid {
            self.vor_ip = ip.to_owned();
        }
        valid
    }

    /// Set the VOR address, if std parses `ip` as an IPv4 address. Returns
    /// whether the address was taken.
    pub fn set_vor_ip(&mut self, ip: &str) -> (r: bool)
        ensures
            r == ipv4_text(ip@),
            r ==> final(self)@ == (SettingsView { vor_ip: ip@, ..old(self)@ }),
            !r ==> final(self)@ == old(self)@,
    {
        let valid = parses_as_ipv4(ip);
        self.accept_vor_ip(ip, valid)
    }

    /// Take the text `port` as the VOR port where its parsed value `parsed`
    /// lies in 1024..=65535; otherwise change nothing. Returns whether the
    /// port was taken.
    pub fn accept_vor_port(&mut self, port: &str, parsed: Option<usize>) -> (r: bool)
        ensures
            r == port_text_accepted(parsed),
            r ==> final(self)@ == (SettingsView { vor_port: port@, ..old(self)@ }),
            !r ==> final(self)@ == old(self)@,
    {
        match parsed {
            Some(p) => {
                if 1024 <= p && p <= 65535 {
                    self.vor_port = port.to_owned();
                    true
                } else {
                    false
                }
            },
            None => false,
        }
    }

    /// Set the VOR port, if std parses `port` as a `usize` between 1024 and
    /// 65535. The text itself is kept. Returns whether the port was taken.
    pub fn set_vor_port(&mut self, port: &str) -> (r: bool)
        ensures
            r == port_text_accepted(usize_text(port@)),
            r ==> final(self)@ == (SettingsView { vor_port: port@, ..old(self)@ }),
            !r ==> final(self)@ == old(self)@,
    {
        let parsed = parse_usize(port);
        self.accept_vor_port(port, parsed)
    }

    /// The settings to run with after reading the settings file: what was
    /// read, or else the defaults. The second value tells whether the
    /// defaults should be written back to the file.
    pub fn resolve_loaded(stored: Option<AppSettings>) -> (r: (AppSettings, bool))
        ensures
            match stored {
                Some(s) => r.0 == s && !r.1,
                None => r.0@ == default_settings() && r.1,
            },
    {
        match stored {
            Some(s) => (s, false),
            None => (AppSettings::default(), true),
        }
    }
}

/// Switching the same flag twice gives back the settings one started from.
pub proof fn lemma_toggle_twice(s: SettingsView, k: SendFlag)
    ensures
        s.toggled(k).toggled(k) == s,
{
    assert(s.toggled(k).toggled(k) =~= s);
}

/// Switching one flag changes that flag to its opposite and leaves every
/// other flag and every address as it was.
pub proof fn lemma_toggle_only_that_flag(s: SettingsView, k: SendFlag, other: SendFlag)
    ensures
        s.toggled(k).flag(k) == flag_switched(s.flag(k)),
        other != k ==> s.toggled(k).flag(other) == s.flag(other),
        s.toggled(k).x32_ip == s.x32_ip,
        s.toggled(k).vor_ip == s.vor_ip,
        s.toggled(k).vor_port == s.vor_port,
{
}

/// Each flag is read from, and switched in, the field named after it, and
/// switching touches no other field.
pub proof fn lemma_toggle_fields(s: SettingsView)
    ensures
        s.flag(SendFlag::Cue) == s.send_cue,
        s.flag(SendFlag::Aux) == s.send_aux,
        s.flag(SendFlag::Bus) == s.send_bus,
        s.flag(SendFlag::Dca) == s.send_dca,
        s.flag(SendFlag::Channel) == s.send_channel,
        s.flag(SendFlag::Main) == s.send_main,
        s.flag(SendFlag::Matrix) == s.send_matrix,
        s.toggled(SendFlag::Cue) == (SettingsView { send_cue: flag_switched(s.send_cue), ..s }),
        s.toggled(SendFlag::Aux) == (SettingsView { send_aux: flag_switched(s.send_aux), ..s }),
        s.toggled(SendFlag::Bus) == (SettingsView { send_bus: flag_switched(s.send_bus), ..s }),
        s.toggled(SendFlag::Dca) == (SettingsView { send_dca: flag_switched(s.send_dca), ..s }),
        s.toggled(SendFlag::Channel) == (SettingsView { send_channel: flag_switched(s.send_channel), ..s }),
        s.toggled(SendFlag::Main) == (SettingsView { send_main: flag_switched(s.send_main), ..s }),
        s.toggled(SendFlag::Matrix) == (SettingsView { send_matrix: flag_switched(s.send_matrix), ..s }),
{
    assert(s.toggled(SendFlag::Cue) =~= SettingsView { send_cue: flag_switched(s.send_cue), ..s });
    assert(s.toggled(SendFlag::Aux) =~= SettingsView { send_aux: flag_switched(s.send_aux), ..s });
    assert(s.toggled(SendFlag::Bus) =~= SettingsView { send_bus: flag_switched(s.send_bus), ..s });
    assert(s.toggled(SendFlag::Dca) =~= SettingsView { send_dca: flag_switched(s.send_dca), ..s });
    assert(s.toggled(SendFlag::Channel) =~= SettingsView { send_channel: flag_switched(s.send_channel), ..s });
    assert(s.toggled(SendFlag::Main) =~= SettingsView { send_main: flag_switched(s.send_main), ..s });
    assert(s.toggled(SendFlag::Matrix) =~= SettingsView { send_matrix: flag_switched(s.send_matrix), ..s });
}

/// The opposite of `Include` is `Skip` and the opposite of `Skip` is
/// `Include`; `Include` stands for `true`.
pub proof fn lemma_flag_values()
    ensures
        flag_switched(VorFlag::Include) == VorFlag::Skip,
        flag_switched(VorFlag::Skip) == VorFlag::Include,
        flag_bool(VorFlag::Include),
        !flag_bool(VorFlag::Skip),
        bool_flag(true) == VorFlag::Include,
        bool_flag(false) == VorFlag::Skip,
{
}

/// The command names, each switching the field named after it.
pub proof fn lemma_flag_names(s: SettingsView)
    ensures
        flag_named("aux"@) == Some(SendFlag::Aux),
        flag_named("bus"@) == Some(SendFlag::Bus),
        flag_named("channel"@) == Some(SendFlag::Channel),
        flag_named("cue"@) == Some(SendFlag::Cue),
        flag_named("dca"@) == Some(SendFlag::Dca),
        flag_named("main"@) == Some(SendFlag::Main),
        flag_named("matrix"@) == Some(SendFlag::Matrix),
        flag_named(Seq::<char>::empty()) == None::<SendFlag>,
        s.toggled(flag_named("aux"@).unwrap()).send_aux == flag_switched(s.send_aux),
        s.toggled(flag_named("main"@).unwrap()).send_main == flag_switched(s.send_main),
        s.toggled(flag_named("matrix"@).unwrap()).send_matrix == flag_switched(s.send_matrix),
        s.toggled(flag_named("channel"@).unwrap()).send_channel == flag_switched(s.send_channel),
        s.toggled(flag_named("bus"@).unwrap()).send_bus == flag_switched(s.send_bus),
        s.toggled(flag_named("dca"@).unwrap()).send_dca == flag_switched(s.send_dca),
        s.toggled(flag_named("cue"@).unwrap()).send_cue == flag_switched(s.send_cue),
{
    reveal_strlit("aux");
    reveal_strlit("bus");
    reveal_strlit("channel");
    reveal_strlit("cue");
    reveal_strlit("dca");
    reveal_strlit("main");
    reveal_strlit("matrix");
    assert("aux"@[0] == 'a');
    assert("bus"@[0] == 'b');
    assert("channel"@[0] == 'c' && "channel"@[1] == 'h');
    assert("cue"@[0] == 'c' && "cue"@[1] == 'u');
    assert("dca"@[0] == 'd');
    assert("main"@[0] == 'm' && "main"@[1] == 'a' && "main"@.len() == 4);
    assert("matrix"@.len() == 6);
    assert("bus"@ != "aux"@);
    assert("channel"@ != "aux"@ && "channel"@ != "bus"@);
    assert("cue"@ != "aux"@ && "cue"@ != "bus"@ && "cue"@ != "channel"@);
    assert("dca"@ != "aux"@ && "dca"@ != "bus"@ && "dca"@ != "channel"@ && "dca"@ != "cue"@);
    assert("main"@ != "aux"@ && "main"@ != "bus"@ && "main"@ != "channel"@ && "main"@ != "cue"@ && "main"@ != "dca"@);
    assert("matrix"@ != "aux"@ && "matrix"@ != "bus"@ && "matrix"@ != "channel"@ && "matrix"@ != "cue"@ && "matrix"@ != "dca"@ && "matrix"@ != "main"@);
    let e = Seq::<char>::empty();
    assert("aux"@.len() == 3 && "bus"@.len() == 3 && "cue"@.len() == 3 && "dca"@.len() == 3);
    assert("channel"@.len() == 7 && "main"@.len() == 4 && "matrix"@.len() == 6);
    assert(e.len() == 0);
    assert(e != "aux"@ && e != "bus"@ && e != "channel"@ && e != "cue"@);
    assert(e != "dca"@ && e != "main"@ && e != "matrix"@);
    lemma_toggle_fields(s);
}

/// A port is taken exactly when its parsed value is a number from 1024 to
/// 65535; a text that does not parse is never taken.
pub proof fn lemma_port_range()
    ensures
        forall|p: usize| port_text_accepted(Some(p)) <==> (1024 <= p && p <= 65535),
        !port_text_accepted(None),
        port_text_accepted(Some(1024usize)),
        port_text_accepted(Some(65535usize)),
        !port_text_accepted(Some(1023usize)),
        !port_text_accepted(Some(65536usize)),
{
}

/// A fresh installation: no X32 address, VOR at 127.0.0.1 port 3333, the
/// cue message and the DCA bank sent, nothing else.
pub proof fn lemma_default_values()
    ensures
        default_settings().x32_ip.len() == 0,
        default_settings().vor_ip == "127.0.0.1"@,
        default_settings().vor_port == "3333"@,
        default_settings().send_cue == VorFlag::Include,
        default_settings().send_dca == VorFlag::Include,
        default_settings().send_aux == VorFlag::Skip,
        default_settings().send_bus == VorFlag::Skip,
        default_settings().send_channel == VorFlag::Skip,
        default_settings().send_main == VorFlag::Skip,
        default_settings().send_matrix == VorFlag::Skip,
{
}

} // verus!
