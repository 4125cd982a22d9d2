//! Writing a type as source text within a width budget.

use crate::layout::{join_lines, write_expanded, write_inline};
use crate::opt::WriteOpt;
use crate::source::{
    arg_renders, arg_sources, field_renders, field_source, field_sources, kind_source,
    tuple_source, ty_source, union_source, variant_renders, variant_sources,
};
use crate::text::{join_ended_strings, join_strings, text_of, texts};
use crate::totality::{lemma_unbounded_kind_has_source, lemma_unbounded_ty_has_source};
use crate::types::{TupleField, Ty, TyKind};
use vstd::prelude::*;
use vstd::string::*;

verus! {

impl Ty {
    /// The source text of the type with no limit on its width.
    pub fn to_string(&self) -> (text: String)
        ensures
            Some(text@) == ty_source(*self, WriteOpt::unbounded()),
    {
        let opt = WriteOpt::unbounded();
        proof {
            lemma_unbounded_ty_has_source(*self, opt);
        }
        self.write(opt).unwrap()
    }

    /// Writes the type as source text: its name where it has one, else its
    /// kind. `None` says that the kind does not fit within `opt`.
    pub fn write(&self, opt: WriteOpt) -> (text: Option<String>)
        ensures
            text_of(text) == ty_source(*self, opt),
            self.name matches Some(name) ==> text_of(text) == Some(name@),
        decreases *self, 0int,
    {
        match &self.name {
            Some(name) => Some(name.clone()),
            None => self.kind.write(opt),
        }
    }
}

/// Writes a type that may be left to inference, for which `infer` stands.
pub fn write_opt_ty(opt_ty: Option<&Ty>, opt: WriteOpt) -> (text: Option<String>)
    ensures
        text_of(text) == match opt_ty {
            Some(ty) => ty_source(*ty, opt),
            None => Some("infer"@),
        },
    decreases opt_ty, 0int,
{
    match opt_ty {
        Some(ty) => ty.write(opt),
        None => Some(String::from_str("infer")),
    }
}

impl TupleField {
    /// Writes the field as source text. `None` says that its type does not
    /// fit within `opt`.
    pub fn write(&self, opt: WriteOpt) -> (text: Option<String>)
        ensures
            text_of(text) == field_source(*self, opt),
        decreases *self, 0int,
    {
        match self {
            TupleField::Wildcard(generic_el) => match generic_el {
                Some(el) => match el.write(opt) {
                    Some(mut r) => {
                        r.append("..");
                        Some(r)
                    },
                    None => None,
                },
                None => Some(String::from_str("*..")),
            },
            TupleField::Single(name, expr) => {
                let mut r = String::new();
                if let Some(name) = name {
                    r.append(name.as_str());
                    r.append(" = ");
                }
                if let Some(expr) = expr {
                    match expr.write(opt) {
                        Some(text) => {
                            r.append(text.as_str());
                        },
                        None => {
                            return None;
                        },
                    }
                } else {
                    r.append("?");
                }
                Some(r)
            },
        }
    }
}

impl TyKind {
    /// The source text of the kind with no limit on its width.
    pub fn to_string(&self) -> (text: String)
        ensures
            Some(text@) == kind_source(*self, WriteOpt::unbounded()),
    {
        let opt = WriteOpt::unbounded();
        proof {
            lemma_unbounded_kind_has_source(*self, opt);
        }
        self.write(opt).unwrap()
    }

    /// Writes the kind as source text. `None` says that it does not fit
    /// within `opt`.
    pub fn write(&self, opt: WriteOpt) -> (text: Option<String>)
        ensures
            text_of(text) == kind_source(*self, opt),
        decreases *self, 0int,
    {
        match self {
            TyKind::Primitive(prim) => Some(String::from_str(prim.as_str())),
            TyKind::Singleton(lit) => Some(lit.text.clone()),
            TyKind::TypeSet => Some(String::from_str("set")),
            TyKind::Array(elem) => match elem.write(opt) {
                Some(text) => {
                    let mut r = String::from_str("[");
                    r.append(text.as_str());
                    r.append("]");
                    Some(r)
                },
                None => None,
            },
            TyKind::Union(variants) => write_union(variants, opt),
            TyKind::Tuple(fields) => write_tuple(fields, opt),
            TyKind::Function(func) => {
                let args = match write_args(&func.args, opt) {
                    Some(args) => args,
                    None => {
                        return None;
                    },
                };
                let ret = match write_opt_ty((*func.return_ty).as_ref(), opt) {
                    Some(ret) => ret,
                    None => {
                        return None;
                    },
                };
                let mut r = join_ended_strings(&args, " ");
                r.append("-> ");
                r.append(ret.as_str());
                Some(r)
            },
        }
    }
}

/// Writes the type of each variant within `opt`; `None` where one does not fit.
fn write_variants(variants: &Vec<(Option<String>, Ty)>, opt: WriteOpt) -> (items: Option<
    Vec<String>,
>)
    ensures
        match items {
            Some(items) => variant_sources(variants@, opt) == Some(texts(items@)),
            None => variant_sources(variants@, opt) is None,
        },
    decreases *variants, 0int,
{
    let mut items: Vec<String> = Vec::new();
    let mut i: usize = 0;
    while i < variants.len()
        invariant
            i <= variants.len(),
            items.len() == i,
            forall|j: int|
                0 <= j < i ==> (#[trigger] variant_renders(variants@, opt)[j]) == Some(items@[j]@),
        decreases variants.len() - i,
    {
        match variants[i].1.write(opt) {
            Some(text) => {
                items.push(text);
            },
            None => {
                assert(variant_renders(variants@, opt)[i as int] is None);
                return None;
            },
        }
        i = i + 1;
    }
    proof {
        let renders = variant_renders(variants@, opt);
        assert(renders.len() == variants.len());
        assert forall|j: int| 0 <= j < renders.len() implies (#[trigger] renders[j]) is Some by {}
        assert(variant_sources(variants@, opt) is Some);
        assert(variant_sources(variants@, opt).unwrap() =~= texts(items@));
    }
    Some(items)
}

/// Writes each field within `opt`; `None` where one does not fit.
fn write_fields(fields: &Vec<TupleField>, opt: WriteOpt) -> (items: Option<Vec<String>>)
    ensures
        match items {
            Some(items) => field_sources(fields@, opt) == Some(texts(items@)),
            None => field_sources(fields@, opt) is None,
        },
    decreases *fields, 0int,
{
    let mut items: Vec<String> = Vec::new();
    let mut i: usize = 0;
    while i < fields.len()
        invariant
            i <= fields.len(),
            items.len() == i,
            forall|j: int|
                0 <= j < i ==> (#[trigger] field_renders(fields@, opt)[j]) == Some(items@[j]@),
        decreases fields.len() - i,
    {
        match fields[i].write(opt) {
            Some(text) => {
                items.push(text);
            },
            None => {
                assert(field_renders(fields@, opt)[i as int] is None);
                return None;
            },
        }
        i = i + 1;
    }
    proof {
        let renders = field_renders(fields@, opt);
        assert(renders.len() == fields.len());
        assert forall|j: int| 0 <= j < renders.len() implies (#[trigger] renders[j]) is Some by {}
        assert(field_sources(fields@, opt) is Some);
        assert(field_sources(fields@, opt).unwrap() =~= texts(items@));
    }
    Some(items)
}

/// Writes each argument type within `opt`; `None` where one does not fit.
fn write_args(args: &Vec<Option<Ty>>, opt: WriteOpt) -> (items: Option<Vec<String>>)
    ensures
        match items {
            Some(items) => arg_sources(args@, opt) == Some(texts(items@)),
            None => arg_sources(args@, opt) is None,
        },
    decreases *args, 0int,
{
    let mut items: Vec<String> = Vec::new();
    let mut i: usize = 0;
    while i < args.len()
        invariant
            i <= args.len(),
            items.len() == i,
            forall|j: int|
                0 <= j < i ==> (#[trigger] arg_renders(args@, opt)[j]) == Some(items@[j]@),
        decreases args.len() - i,
    {
        match write_opt_ty(args[i].as_ref(), opt) {
            Some(text) => {
                items.push(text);
            },
            None => {
                assert(arg_renders(args@, opt)[i as int] is None);
                return None;
            },
        }
        i = i + 1;
    }
    proof {
        let renders = arg_renders(args@, opt);
        assert(renders.len() == args.len());
        assert forall|j: int| 0 <= j < renders.len() implies (#[trigger] renders[j]) is Some by {}
        assert(arg_sources(args@, opt) is Some);
        assert(arg_sources(args@, opt).unwrap() =~= texts(items@));
    }
    Some(items)
}

/// Writes a union: on one line where that fits, else a variant a line.
fn write_union(variants: &Vec<(Option<String>, Ty)>, opt: WriteOpt) -> (text: Option<String>)
    ensures
        text_of(text) == union_source(variants@, opt),
    decreases *variants, 1int,
{
    if let Some(items) = write_variants(variants, opt) {
        if let Some(text) = write_inline(join_strings(&items, " || "), opt) {
            return Some(text);
        }
    }
    match write_variants(variants, opt.next_line(" ||".unicode_len())) {
        Some(items) => write_expanded(join_lines(&items, " ||"), opt),
        None => None,
    }
}

/// Writes a tuple: on one line where that fits, else a field a line.
fn write_tuple(fields: &Vec<TupleField>, opt: WriteOpt) -> (text: Option<String>)
    ensures
        text_of(text) == tuple_source(fields@, opt),
    decreases *fields, 1int,
{
    if let Some(items) = write_fields(fields, opt) {
        if let Some(text) = write_inline(in_braces(join_strings(&items, ", ")), opt) {
            return Some(text);
        }
    }
    proof {
        reveal_strlit("{");
        reveal_strlit(",");
    }
    match write_fields(fields, opt.next_line("{".unicode_len() + ",".unicode_len())) {
        Some(items) => write_expanded(in_braces(join_lines(&items, ",")), opt),
        None => None,
    }
}

/// Puts `list` between braces.
fn in_braces(list: String) -> (text: String)
    ensures
        text@ == "{"@ + list@ + "}"@,
{
    let mut text = String::from_str("{");
    text.append(list.as_str());
    text.append("}");
    text
}

} // verus!
