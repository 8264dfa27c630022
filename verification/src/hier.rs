use vstd::prelude::*;
use vstd::string::StringExecFns;
use crate::codes::{AttrType, ScopeType, VarDir, VarType};
use crate::text::{bool_str, bool_text, decimal, decimal_string, debug_str, str_debug};

verus! {

/// The kind of an entry of the hierarchy, as the reader of a waveform file numbers it.
#[derive(Debug, Clone, Copy, PartialEq, Eq, Structural)]
pub enum HierType {
    Scope,
    Upscope,
    Var,
    AttrBegin,
    AttrEnd,
}

impl HierType {
    /// The kind that a number stands for; numbers from 5 on (the tree markers) stand for none.
    pub open spec fn spec_from_code(code: u8) -> Option<HierType> {
        match code {
            0u8 => Option::Some(HierType::Scope),
            1u8 => Option::Some(HierType::Upscope),
            2u8 => Option::Some(HierType::Var),
            3u8 => Option::Some(HierType::AttrBegin),
            4u8 => Option::Some(HierType::AttrEnd),
            _ => Option::None,
        }
    }

    /// The kinds of entries as the FST format numbers them: scope 0, upscope 1, variable 2,
    /// attribute begin 3, attribute end 4; no other number stands for an entry.
    pub proof fn law_numbers(code: u8)
        ensures
            HierType::spec_from_code(0) == Option::Some(HierType::Scope),
            HierType::spec_from_code(1) == Option::Some(HierType::Upscope),
            HierType::spec_from_code(2) == Option::Some(HierType::Var),
            HierType::spec_from_code(3) == Option::Some(HierType::AttrBegin),
            HierType::spec_from_code(4) == Option::Some(HierType::AttrEnd),
            code >= 5 ==> HierType::spec_from_code(code) is None,
    {
    }

    /// The kind that a number stands for; numbers from 5 on (the tree markers) stand for none.
    pub fn from_code(code: u8) -> (r: Option<HierType>)
        ensures
            r == HierType::spec_from_code(code),
    {
        match code {
            0 => Option::Some(HierType::Scope),
            1 => Option::Some(HierType::Upscope),
            2 => Option::Some(HierType::Var),
            3 => Option::Some(HierType::AttrBegin),
            4 => Option::Some(HierType::AttrEnd),
            _ => Option::None,
        }
    }
}

/// A scope that the hierarchy opens: a module, a task, a VHDL process, ...
pub struct Scope {
    pub typ: ScopeType,
    pub name: String,
    pub component: String,
}

impl Scope {
    /// The kind of the scope.
    pub fn typ(&self) -> (r: ScopeType)
        ensures
            r == self.typ,
    {
        self.typ
    }

    /// The name of the scope.
    pub fn name(&self) -> (r: &str)
        ensures
            r@ == self.name@,
    {
        self.name.as_str()
    }

    /// The component (the definition) that the scope instantiates.
    pub fn component(&self) -> (r: &str)
        ensures
            r@ == self.component@,
    {
        self.component.as_str()
    }
}

/// A variable that the hierarchy declares in the current scope.
pub struct Var {
    pub typ: VarType,
    pub direction: VarDir,
    pub name: String,
    pub length: u32,
    pub handle: u32,
    pub is_alias: bool,
}

impl Var {
    /// The declared type of the variable.
    pub fn typ(&self) -> (r: VarType)
        ensures
            r == self.typ,
    {
        self.typ
    }

    /// The name of the variable.
    pub fn name(&self) -> (r: &str)
        ensures
            r@ == self.name@,
    {
        self.name.as_str()
    }

    /// The direction of the variable.
    pub fn direction(&self) -> (r: VarDir)
        ensures
            r == self.direction,
    {
        self.direction
    }

    /// The width of the variable in bits.
    pub fn length(&self) -> (r: usize)
        ensures
            r == self.length,
    {
        self.length as usize
    }

    /// The handle under which the values of the variable are stored.
    pub fn handle(&self) -> (r: u32)
        ensures
            r == self.handle,
    {
        self.handle
    }

    /// Whether the variable shares the values of an earlier one.
    pub fn is_alias(&self) -> (r: bool)
        ensures
            r == self.is_alias,
    {
        self.is_alias
    }
}

/// An attribute that the hierarchy attaches.
pub struct Attr {
    pub typ: AttrType,
    pub name: String,
    pub arg: u64,
    pub arg_from_name: u64,
}

impl Attr {
    /// The type of the attribute.
    pub fn typ(&self) -> (r: AttrType)
        ensures
            r == self.typ,
    {
        self.typ
    }

    /// The name of the attribute.
    pub fn name(&self) -> (r: &str)
        ensures
            r@ == self.name@,
    {
        self.name.as_str()
    }

    /// The numeric argument of the attribute.
    pub fn arg(&self) -> (r: u64)
        ensures
            r == self.arg,
    {
        self.arg
    }

    /// The argument that the attribute's name stands for.
    pub fn arg_from_name(&self) -> (r: u64)
        ensures
            r == self.arg_from_name,
    {
        self.arg_from_name
    }
}

/// One entry of the hierarchy of a waveform file, in the order the file declares them.
pub enum Hier {
    Scope(Scope),
    Upscope,
    Var(Var),
    Attr(Attr),
    AttrEnd,
}

impl Hier {
    /// The text that `Debug` writes for the entry: a struct-like listing of its fields.
    pub open spec fn spec_debug(&self) -> Seq<char> {
        match self {
            Hier::Scope(s) => "Scope { typ: "@ + s.typ.spec_name() + ", name: "@ + debug_str(s.name@)
                + ", component: "@ + debug_str(s.component@) + " }"@,
            Hier::Upscope => "Upscope"@,
            Hier::Var(v) => "Var { typ: "@ + v.typ.spec_name() + ", direction: "@
                + v.direction.spec_name() + ", name: "@ + debug_str(v.name@) + ", length: "@
                + decimal(v.length as nat) + ", handle: "@ + decimal(v.handle as nat)
                + ", is_alias: "@ + bool_text(v.is_alias) + " }"@,
            Hier::Attr(a) => "Attr { typ: "@ + a.typ.spec_debug() + ", name: "@ + debug_str(a.name@)
                + ", arg: "@ + decimal(a.arg as nat) + ", arg_from_name: "@ + decimal(
                a.arg_from_name as nat,
            ) + " }"@,
            Hier::AttrEnd => "AttrEnd"@,
        }
    }

    /// The text that `Debug` writes for the entry: a struct-like listing of its fields.
    pub fn debug_string(&self) -> (r: String)
        ensures
            r@ == self.spec_debug(),
    {
        let mut r = String::new();
        match self {
            Hier::Scope(s) => {
                r.append("Scope { typ: ");
                r.append(s.typ().name());
                r.append(", name: ");
                let t = str_debug(s.name());
                r.append(t.as_str());
                r.append(", component: ");
                let t = str_debug(s.component());
                r.append(t.as_str());
                r.append(" }");
            },
            Hier::Upscope => {
                r.append("Upscope");
            },
            Hier::Var(v) => {
                r.append("Var { typ: ");
                r.append(v.typ().name());
                r.append(", direction: ");
                r.append(v.direction().name());
                r.append(", name: ");
                let t = str_debug(v.name());
                r.append(t.as_str());
                r.append(", length: ");
                let t = decimal_string(v.length as u64);
                r.append(t.as_str());
                r.append(", handle: ");
                let t = decimal_string(v.handle() as u64);
                r.append(t.as_str());
                r.append(", is_alias: ");
                r.append(bool_str(v.is_alias()));
                r.append(" }");
            },
            Hier::Attr(a) => {
                r.append("Attr { typ: ");
                let t = a.typ().debug_text();
                r.append(t.as_str());
                r.append(", name: ");
                let t = str_debug(a.name());
                r.append(t.as_str());
                r.append(", arg: ");
                let t = decimal_string(a.arg());
                r.append(t.as_str());
                r.append(", arg_from_name: ");
                let t = decimal_string(a.arg_from_name());
                r.append(t.as_str());
                r.append(" }");
            },
            Hier::AttrEnd => {
                r.append("AttrEnd");
            },
        }
        r
    }
}

} // verus!
