//! Categories and groups: the two levels of names that decide what is
//! recorded and in which color it is shown.

use core::marker::PhantomData;
use vstd::prelude::*;
use vstd::string::StringSliceAdditionalSpecFns;
use crate::call::{Call, CallView, TokenKind};
use crate::color::Color;
use crate::gpu::GpuThreadLog;
use crate::name::{first_nul, nul_free, Name, NameError};
use crate::profiler::Profiler;
use crate::scope::{CpuScope, GpuScope, Scope};

verus! {

/// The call that makes a group known to the backend.
pub open spec fn registration(name: Seq<u8>, category: Seq<u8>, color: Color) -> CallView {
    CallView::RegisterGroup { name, category, color: color.packed() }
}

/// The call that asks the backend for the token of a scope.
pub open spec fn token_request(
    group: Seq<u8>,
    name: Seq<u8>,
    color: Color,
    kind: TokenKind,
) -> CallView {
    CallView::GetToken { group, name, color: color.packed(), kind }
}

/// Two requests for a token of one group, one scope name and one kind go to
/// the backend with that same group, name and kind, whatever their colors
/// are: telling them apart, or not, is the backend's part.
pub proof fn lemma_token_request_routing(
    group: Seq<u8>,
    name: Seq<u8>,
    kind: TokenKind,
    first: Color,
    second: Color,
)
    ensures
        token_request(group, name, first, kind)->GetToken_group == token_request(
            group,
            name,
            second,
            kind,
        )->GetToken_group,
        token_request(group, name, first, kind)->GetToken_name == token_request(
            group,
            name,
            second,
            kind,
        )->GetToken_name,
        token_request(group, name, first, kind)->GetToken_kind == token_request(
            group,
            name,
            second,
            kind,
        )->GetToken_kind,
        first == second ==> token_request(group, name, first, kind) == token_request(
            group,
            name,
            second,
            kind,
        ),
{
}

/// A request says all of what was asked: two requests are the same call
/// only if group, scope name, color and kind are the same.
pub proof fn lemma_token_request_injective(
    group: Seq<u8>,
    name: Seq<u8>,
    color: Color,
    kind: TokenKind,
    other_group: Seq<u8>,
    other_name: Seq<u8>,
    other_color: Color,
    other_kind: TokenKind,
)
    requires
        token_request(group, name, color, kind) == token_request(
            other_group,
            other_name,
            other_color,
            other_kind,
        ),
    ensures
        group == other_group,
        name == other_name,
        color == other_color,
        kind == other_kind,
{
    Color::lemma_packed_injective(color, other_color);
}

/// The upper level of names: a key by which groups are enabled and
/// disabled together.
#[derive(Debug)]
pub struct Category<'a> {
    name: Name,
    profiler: PhantomData<&'a Profiler>,
}

impl<'a> Category<'a> {
    /// The category's name.
    pub closed spec fn spec_name(&self) -> &Name {
        &self.name
    }

    /// The category's name.
    #[verifier::when_used_as_spec(spec_name)]
    pub fn name(&self) -> (name: &Name)
        ensures
            name == self.spec_name(),
    {
        &self.name
    }

    /// The category of that name.
    pub(crate) fn new(name: Name) -> (category: Category<'a>)
        ensures
            category.name()@ == name@,
    {
        Category { name, profiler: PhantomData }
    }

    /// The call that enables or disables every group of the category.
    pub fn enable(&self, enable: bool) -> (call: Call)
        ensures
            call@ == if enable {
                CallView::EnableCategory { name: self.name()@ }
            } else {
                CallView::DisableCategory { name: self.name()@ }
            },
    {
        if enable {
            Call::EnableCategory { name: self.name.clone() }
        } else {
            Call::DisableCategory { name: self.name.clone() }
        }
    }

    /// Defines a group of this category: the group, and the call that
    /// registers it with its category's name and its packed color. A name
    /// with a NUL byte is rejected.
    pub fn define_group(&self, name: &str, color: Color) -> (result: Result<
        (Group<'a>, Call),
        NameError,
    >)
        ensures
            match result {
                Ok((group, call)) => {
                    &&& nul_free(name.spec_bytes())
                    &&& group.name()@ == name.spec_bytes()
                    &&& group.category()@ == self.name()@
                    &&& call@ == registration(name.spec_bytes(), self.name()@, color)
                },
                Err(error) => first_nul(name.spec_bytes(), error.position as int),
            },
    {
        let name = match Name::new(name) {
            Ok(name) => name,
            Err(error) => {
                return Err(error);
            },
        };
        let call = Call::RegisterGroup {
            name: name.clone(),
            category: self.name.clone(),
            color: color.pack(),
        };
        let group = Group { name, category: self.name.clone(), profiler: PhantomData };
        Ok((group, call))
    }
}

/// The lower level of names: scopes are asked for by group, and a group
/// belongs to the category that defined it.
#[derive(Debug)]
pub struct Group<'a> {
    name: Name,
    category: Name,
    profiler: PhantomData<&'a Profiler>,
}

impl<'a> Group<'a> {
    /// The group's name.
    pub closed spec fn spec_name(&self) -> &Name {
        &self.name
    }

    /// The group's name.
    #[verifier::when_used_as_spec(spec_name)]
    pub fn name(&self) -> (name: &Name)
        ensures
            name == self.spec_name(),
    {
        &self.name
    }

    /// The name of the category that defined the group.
    pub closed spec fn spec_category(&self) -> &Name {
        &self.category
    }

    /// The name of the category that defined the group.
    #[verifier::when_used_as_spec(spec_category)]
    pub fn category(&self) -> (category: &Name)
        ensures
            category == self.spec_category(),
    {
        &self.category
    }

    /// The call that asks for the token of a scope of this group.
    fn token_call(&self, name: &str, color: Color, kind: TokenKind) -> (result: Result<
        Call,
        NameError,
    >)
        ensures
            match result {
                Ok(call) => {
                    &&& nul_free(name.spec_bytes())
                    &&& call@ == token_request(self.name()@, name.spec_bytes(), color, kind)
                },
                Err(error) => first_nul(name.spec_bytes(), error.position as int),
            },
    {
        match Name::new(name) {
            Ok(name) => Ok(
                Call::GetToken { group: self.name.clone(), name, color: color.pack(), kind },
            ),
            Err(error) => Err(error),
        }
    }

    /// The call that asks for the token of the CPU scope `name` of this
    /// group, shown in `color`. A name with a NUL byte is rejected.
    pub fn get_cpu_scope_call(&self, name: &str, color: Color) -> (result: Result<Call, NameError>)
        ensures
            match result {
                Ok(call) => {
                    &&& nul_free(name.spec_bytes())
                    &&& call@ == token_request(
                        self.name()@,
                        name.spec_bytes(),
                        color,
                        TokenKind::Cpu,
                    )
                },
                Err(error) => first_nul(name.spec_bytes(), error.position as int),
            },
    {
        self.token_call(name, color, TokenKind::Cpu)
    }

    /// The CPU scope of the token that the backend answered: idle.
    pub fn get_cpu_scope(&self, token: u64) -> (scope: CpuScope<'a>)
        ensures
            scope.token() == token,
            scope.tick() is None,
    {
        CpuScope::new(token)
    }

    /// The call that asks for the token of the GPU scope `name` of this
    /// group, shown in `color`. A name with a NUL byte is rejected.
    pub fn get_gpu_scope_call(&self, name: &str, color: Color) -> (result: Result<Call, NameError>)
        ensures
            match result {
                Ok(call) => {
                    &&& nul_free(name.spec_bytes())
                    &&& call@ == token_request(
                        self.name()@,
                        name.spec_bytes(),
                        color,
                        TokenKind::Gpu,
                    )
                },
                Err(error) => first_nul(name.spec_bytes(), error.position as int),
            },
    {
        self.token_call(name, color, TokenKind::Gpu)
    }

    /// The GPU scope of the token that the backend answered: idle, and
    /// recording into `log`, which it borrows.
    pub fn get_gpu_scope<'b>(&self, log: &'b GpuThreadLog<'a>, token: u64) -> (scope: GpuScope<
        'a,
        'b,
    >)
        ensures
            scope.token() == token,
            scope.log() == log,
            scope.tick() is None,
    {
        GpuScope::new(token, log)
    }
}

} // verus!
