//! Groups of named constants and their TypeScript descriptions.

use crate::text::{ends_with, ends_with_char, in_parens, parenthesized};
use crate::value::{literal_text, ConstValue, Literal};
use vstd::prelude::*;
use vstd::string::StringExecFns;

verus! {

/// One constant of a group: its name and its value.
#[derive(Debug, PartialEq, Eq)]
pub struct ConstDecl {
    pub name: String,
    pub value: ConstValue,
}

/// The mathematical content of a [`ConstDecl`].
pub ghost struct DeclView {
    pub name: Seq<char>,
    pub value: Literal,
}

impl View for ConstDecl {
    type V = DeclView;

    open spec fn view(&self) -> DeclView {
        DeclView { name: self.name@, value: self.value@ }
    }
}

impl Clone for ConstDecl {
    fn clone(&self) -> (copy: ConstDecl)
        ensures
            copy == *self,
    {
        ConstDecl { name: self.name.clone(), value: self.value.clone() }
    }
}

/// The mathematical content of a list of constants.
pub open spec fn decl_views(consts: Seq<ConstDecl>) -> Seq<DeclView> {
    consts.map_values(|decl: ConstDecl| decl@)
}

/// The mathematical content of a [`ConstGroup`]: its name, the template of
/// its output path, and its constants in the order of their declaration.
pub ghost struct GroupView {
    pub name: Seq<char>,
    pub output: Option<Seq<char>>,
    pub consts: Seq<DeclView>,
}

/// A named list of constants, in the order of their declaration, with the
/// place where its description is to be written, if it has one.
#[derive(Debug, PartialEq, Eq)]
pub struct ConstGroup {
    name: String,
    output: Option<String>,
    consts: Vec<ConstDecl>,
}

/// What one constant contributes to an object literal: `name: value, `.
pub open spec fn entry_text(decl: DeclView) -> Seq<char> {
    decl.name + seq![':', ' '] + literal_text(decl.value) + seq![',', ' ']
}

/// The entries of all constants, one after the other.
pub open spec fn entries_text(consts: Seq<DeclView>) -> Seq<char>
    decreases consts.len(),
{
    if consts.len() == 0 {
        Seq::empty()
    } else {
        entries_text(consts.drop_last()) + entry_text(consts.last())
    }
}

/// The object literal that holds the constants: `{ `, the entries, `}`.
pub open spec fn inline_text(consts: Seq<DeclView>) -> Seq<char> {
    seq!['{', ' '] + entries_text(consts) + seq!['}']
}

/// The path that a template stands for: a template that ends with `/` names
/// a directory, and the file in it is named after the group, with the
/// extension `.ts`; any other template is the path itself.
pub open spec fn resolved_path(template: Seq<char>, name: Seq<char>) -> Seq<char> {
    if ends_with_char(template, '/') {
        template + name + seq!['.', 't', 's']
    } else {
        template
    }
}

impl GroupView {
    /// The object literal of the group's constants.
    pub open spec fn inline(self) -> Seq<char> {
        inline_text(self.consts)
    }

    /// The object literal between round brackets.
    pub open spec fn inline_flattened(self) -> Seq<char> {
        in_parens(self.inline())
    }

    /// The declaration of the group: `const `, the name, ` = `, the object
    /// literal, `;`.
    pub open spec fn decl(self) -> Seq<char> {
        seq!['c', 'o', 'n', 's', 't', ' '] + self.name + seq![' ', '=', ' '] + self.inline()
            + seq![';']
    }

    /// The path of the group's output: its template, resolved for its name.
    pub open spec fn output_path(self) -> Option<Seq<char>> {
        match self.output {
            Some(template) => Some(resolved_path(template, self.name)),
            None => None,
        }
    }
}

/// Resolves an output-path template for the group named `name`.
pub fn resolve_path(template: &str, name: &str) -> (path: String)
    ensures
        path@ == resolved_path(template@, name@),
{
    let mut path = String::from_str(template);
    if ends_with(template, '/') {
        proof {
            reveal_strlit(".ts");
        }
        path.append(name);
        path.append(".ts");
    }
    path
}

impl View for ConstGroup {
    type V = GroupView;

    closed spec fn view(&self) -> GroupView {
        GroupView {
            name: self.name@,
            output: self.output.deep_view(),
            consts: decl_views(self.consts@),
        }
    }
}

impl Clone for ConstGroup {
    fn clone(&self) -> (copy: ConstGroup)
        ensures
            copy@ == self@,
    {
        let mut consts: Vec<ConstDecl> = Vec::new();
        let mut i: usize = 0;
        while i < self.consts.len()
            invariant
                i <= self.consts.len(),
                consts@ == self.consts@.take(i as int),
            decreases self.consts.len() - i,
        {
            consts.push(self.consts[i].clone());
            i += 1;
        }
        assert(self.consts@.take(i as int) == self.consts@);
        let output = match &self.output {
            Some(template) => Some(template.clone()),
            None => None,
        };
        ConstGroup { name: self.name.clone(), output, consts }
    }
}

impl ConstGroup {
    /// The group named `name` that holds `consts`, in that order. `output`
    /// is the template of the path to which its description is written.
    pub fn new(name: String, output: Option<String>, consts: Vec<ConstDecl>) -> (group: ConstGroup)
        ensures
            group@ == (GroupView {
                name: name@,
                output: output.deep_view(),
                consts: decl_views(consts@),
            }),
    {
        ConstGroup { name, output, consts }
    }

    /// The constants of the group, in the order of their declaration.
    pub fn consts(&self) -> (consts: &Vec<ConstDecl>)
        ensures
            decl_views(consts@) == self@.consts,
    {
        &self.consts
    }

    /// The group's name.
    pub fn name(&self) -> (text: String)
        ensures
            text@ == self@.name,
    {
        self.name.clone()
    }

    /// The object literal that maps each constant's name to its value.
    pub fn inline(&self) -> (text: String)
        ensures
            text@ == self@.inline(),
    {
        proof {
            reveal_strlit("{ ");
            reveal_strlit("}");
        }
        let mut text = String::from_str("{ ");
        let mut i: usize = 0;
        while i < self.consts.len()
            invariant
                i <= self.consts.len(),
                text@ == seq!['{', ' '] + entries_text(self@.consts.take(i as int)),
            decreases self.consts.len() - i,
        {
            let decl = &self.consts[i];
            let value = decl.value.text();
            text.append(decl.name.as_str());
            text.append(": ");
            text.append(value.as_str());
            text.append(", ");
            proof {
                reveal_strlit(": ");
                reveal_strlit(", ");
                assert(self@.consts.take(i + 1).drop_last() =~= self@.consts.take(i as int));
            }
            i += 1;
        }
        assert(self@.consts.take(i as int) == self@.consts);
        text.append("}");
        text
    }

    /// The object literal between round brackets.
    pub fn inline_flattened(&self) -> (text: String)
        ensures
            text@ == self@.inline_flattened(),
    {
        let inline = self.inline();
        parenthesized(inline.as_str())
    }

    /// The declaration `const <name> = <object literal>;`.
    pub fn decl(&self) -> (text: String)
        ensures
            text@ == self@.decl(),
    {
        proof {
            reveal_strlit("const ");
            reveal_strlit(" = ");
            reveal_strlit(";");
        }
        let inline = self.inline();
        let mut text = String::from_str("const ");
        text.append(self.name.as_str());
        text.append(" = ");
        text.append(inline.as_str());
        text.append(";");
        text
    }

    /// The declaration with every type parameter filled in. A group has no
    /// type parameters, so this is the declaration.
    pub fn decl_concrete(&self) -> (text: String)
        ensures
            text@ == self@.decl(),
    {
        self.decl()
    }

    /// The path to which the group's description is written: the resolved
    /// template, or nothing for a group without one.
    pub fn output_path(&self) -> (path: Option<String>)
        ensures
            path.deep_view() == self@.output_path(),
    {
        match &self.output {
            Some(template) => Some(resolve_path(template.as_str(), self.name.as_str())),
            None => None,
        }
    }
}

} // verus!
