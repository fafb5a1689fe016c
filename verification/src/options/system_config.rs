//! The system configuration document.

use vstd::prelude::*;
use crate::text::{decimal, push_decimal, push_line};
use super::accelerator::AcceleratorConfig;
use super::compiler_options::opt_line;

verus! {

/// What a [`SystemConfig`] holds.
pub struct SystemModel {
    pub accelerator: AcceleratorConfig,
    pub system_config_name: Option<Seq<char>>,
    pub memory_mode_name: Option<Seq<char>>,
    pub vela_ini: Seq<char>,
}

impl SystemModel {
    /// The `[architecture]` section that sizes the NPU.
    pub open spec fn architecture_section(self) -> Seq<char> {
        "[architecture]\nmacs="@ + decimal(self.accelerator.mac_count() as nat) + "\ncores="@
            + decimal(self.accelerator.core_count() as nat) + "\n"@
    }

    /// The whole document: the `[architecture]` section, the `[vela]`
    /// section naming the sections to apply, then the Vela `.ini` verbatim.
    pub open spec fn document(self) -> Seq<char> {
        self.architecture_section() + "[vela]\n"@ + opt_line(
            "system_config_name"@,
            self.system_config_name,
        ) + opt_line("memory_mode_name"@, self.memory_mode_name) + self.vela_ini
    }
}

/// Builder for the system configuration document.
///
/// This is how the accelerator reaches regor. There is deliberately no
/// accelerator setter on `CompilerOptions`: regor sizes the NPU from the
/// `[architecture]` section written here, and would ignore an
/// `accelerator_config` compiler option entirely.
#[derive(Debug)]
pub struct SystemConfig {
    accelerator: AcceleratorConfig,
    system_config_name: Option<String>,
    memory_mode_name: Option<String>,
    vela_ini: String,
}

impl View for SystemConfig {
    type V = SystemModel;

    closed spec fn view(&self) -> SystemModel {
        SystemModel {
            accelerator: self.accelerator,
            system_config_name: match self.system_config_name {
                Some(n) => Some(n@),
                None => None,
            },
            memory_mode_name: match self.memory_mode_name {
                Some(n) => Some(n@),
                None => None,
            },
            vela_ini: self.vela_ini@,
        }
    }
}

impl Clone for SystemConfig {
    fn clone(&self) -> (r: Self)
        ensures
            r@ == self@,
    {
        SystemConfig {
            accelerator: self.accelerator,
            system_config_name: match &self.system_config_name {
                Some(n) => Some(n.clone()),
                None => None,
            },
            memory_mode_name: match &self.memory_mode_name {
                Some(n) => Some(n.clone()),
                None => None,
            },
            vela_ini: self.vela_ini.clone(),
        }
    }
}

impl SystemConfig {
    /// Start a system configuration for `accelerator`.
    pub fn new(accelerator: AcceleratorConfig) -> (r: Self)
        ensures
            r@ == (SystemModel {
                accelerator,
                system_config_name: None,
                memory_mode_name: None,
                vela_ini: Seq::empty(),
            }),
    {
        SystemConfig {
            accelerator,
            system_config_name: None,
            memory_mode_name: None,
            vela_ini: String::new(),
        }
    }

    /// The `System_Config.*` section of the Vela `.ini` to apply.
    ///
    /// When unset, regor takes the first one it finds.
    pub fn system_config_name(self, name: &str) -> (r: Self)
        ensures
            r@ == (SystemModel { system_config_name: Some(name@), ..self@ }),
    {
        let mut o = self;
        o.system_config_name = Some(name.to_owned());
        o
    }

    /// The `Memory_Mode.*` section of the Vela `.ini` to apply.
    ///
    /// When unset, regor takes the first one it finds.
    pub fn memory_mode_name(self, name: &str) -> (r: Self)
        ensures
            r@ == (SystemModel { memory_mode_name: Some(name@), ..self@ }),
    {
        let mut o = self;
        o.memory_mode_name = Some(name.to_owned());
        o
    }

    /// The Vela configuration `.ini` supplying those sections, appended
    /// verbatim.
    pub fn vela_ini(self, ini: &str) -> (r: Self)
        ensures
            r@ == (SystemModel { vela_ini: ini@, ..self@ }),
    {
        let mut o = self;
        o.vela_ini = ini.to_owned();
        o
    }

    /// The accelerator this configuration describes.
    pub fn accelerator(&self) -> (a: AcceleratorConfig)
        ensures
            a == self@.accelerator,
    {
        self.accelerator
    }

    /// Serialise to the document `regor_set_system_config` expects.
    pub fn build(&self) -> (s: String)
        ensures
            s@ == self@.document(),
    {
        let mut out = String::from_str("[architecture]\nmacs=");
        push_decimal(&mut out, self.accelerator.macs() as u64);
        out.append("\ncores=");
        push_decimal(&mut out, self.accelerator.cores() as u64);
        out.append("\n");
        out.append("[vela]\n");
        if let Some(v) = &self.system_config_name {
            push_line(&mut out, "system_config_name", v.as_str());
        }
        if let Some(v) = &self.memory_mode_name {
            push_line(&mut out, "memory_mode_name", v.as_str());
        }
        out.append(self.vela_ini.as_str());
        out
    }
}

/// The system document leads with the `[architecture]` section sizing the
/// NPU and ends with the Vela `.ini` exactly as given.
pub proof fn law_system_document_layout(m: SystemModel)
    ensures
        m.document().take(m.architecture_section().len() as int) == m.architecture_section(),
        m.document().skip(m.document().len() - m.vela_ini.len()) == m.vela_ini,
{
    let d = m.document();
    let a = m.architecture_section();
    let middle = "[vela]\n"@ + opt_line("system_config_name"@, m.system_config_name) + opt_line(
        "memory_mode_name"@,
        m.memory_mode_name,
    );
    assert(d =~= a + middle + m.vela_ini);
    assert(d.take(a.len() as int) =~= a);
    assert(d.skip(d.len() - m.vela_ini.len()) =~= m.vela_ini);
}

/// Giving a memory mode name writes the one line `memory_mode_name=<name>`
/// into the `[vela]` section, whether or not a system configuration name is
/// given; leaving it out writes nothing in its place.
pub proof fn law_memory_mode_name_line(m: SystemModel, name: Seq<char>)
    ensures
        exists|p: Seq<char>, r: Seq<char>|
            {
                &&& p.len() > 0 && p.last() == '\n'
                &&& (SystemModel { memory_mode_name: Some(name), ..m }).document() == p
                    + ("memory_mode_name"@ + "="@ + name + "\n"@) + r
                &&& (SystemModel { memory_mode_name: None, ..m }).document() == p + r
            },
{
    reveal_strlit("[vela]\n");
    let p = m.architecture_section() + "[vela]\n"@ + opt_line(
        "system_config_name"@,
        m.system_config_name,
    );
    let r = m.vela_ini;
    let l = "memory_mode_name"@ + "="@ + name + "\n"@;
    reveal_strlit("\n");
    if let Some(n) = m.system_config_name {
        let sl = "system_config_name"@ + "="@ + n + "\n"@;
        assert(sl.last() == '\n');
        assert(p == m.architecture_section() + "[vela]\n"@ + sl);
    }
    assert(p.last() == '\n');
    assert((SystemModel { memory_mode_name: Some(name), ..m }).document() =~= p + l + r);
    assert((SystemModel { memory_mode_name: None, ..m }).document() =~= p + r);
}

/// Giving a system configuration name writes the one line
/// `system_config_name=<name>` right after the `[vela]` header, whether or
/// not a memory mode name is given; leaving it out writes nothing in its
/// place.
pub proof fn law_system_config_name_line(m: SystemModel, name: Seq<char>)
    ensures
        exists|p: Seq<char>, r: Seq<char>|
            {
                &&& p.len() > 0 && p.last() == '\n'
                &&& (SystemModel { system_config_name: Some(name), ..m }).document() == p
                    + ("system_config_name"@ + "="@ + name + "\n"@) + r
                &&& (SystemModel { system_config_name: None, ..m }).document() == p + r
            },
{
    reveal_strlit("[vela]\n");
    let p = m.architecture_section() + "[vela]\n"@;
    let r = opt_line("memory_mode_name"@, m.memory_mode_name) + m.vela_ini;
    let l = "system_config_name"@ + "="@ + name + "\n"@;
    assert(p.last() == '\n');
    assert((SystemModel { system_config_name: Some(name), ..m }).document() =~= p + l + r);
    assert((SystemModel { system_config_name: None, ..m }).document() =~= p + r);
}

} // verus!
