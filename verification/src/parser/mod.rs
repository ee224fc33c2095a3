//! The AST builder: from the concrete syntax tree of a source file to the
//! syntax tree of `crate::ast`.
pub mod error;
pub mod expr_parser;
pub mod expr_spec;
pub mod item_parser;
pub mod item_spec;
pub mod laws;
pub mod message;
pub mod stmt_parser;
pub mod stmt_spec;
pub mod text;
pub mod tree;
pub mod type_parser;
pub mod type_spec;
pub mod view;

use vstd::prelude::*;

use crate::ast::Program;
use crate::parser::error::ParseError;
use crate::parser::item_spec::{program_result_v, program_spec};
use crate::parser::text::{trim, trim_spec};
use crate::parser::tree::Node;

verus! {

broadcast use vstd::string::group_string_axioms;

/// The builder's state: the namespace that function names are put in, the
/// source names of the functions built so far, and the source it reads.
#[derive(Clone, Debug)]
pub struct ParserState {
    pub namespace: String,
    pub functions: Vec<String>,
    pub source_code: String,
    pub source_file_name: String,
}

pub type JunoASTParser = ParserState;

pub struct ParserStateV {
    pub namespace: Seq<char>,
    pub functions: Seq<Seq<char>>,
    pub source_code: Seq<char>,
    pub source_file_name: Seq<char>,
}

impl View for ParserState {
    type V = ParserStateV;

    open spec fn view(&self) -> ParserStateV {
        ParserStateV {
            namespace: self.namespace@,
            functions: Seq::new(self.functions@.len(), |i: int| self.functions@[i]@),
            source_code: self.source_code@,
            source_file_name: self.source_file_name@,
        }
    }
}

/// `name` put in the namespace `ns`: `ns::name`.
pub open spec fn namespaced(ns: Seq<char>, name: Seq<char>) -> Seq<char> {
    ns + seq![':', ':'] + name
}

/// The list of function names with `name` added, where it is not there yet.
pub open spec fn add_name(names: Seq<Seq<char>>, name: Seq<char>) -> Seq<Seq<char>> {
    if names.contains(name) {
        names
    } else {
        names.push(name)
    }
}

/// Whether an identifier token is usable as a name: its text, trimmed,
/// holds no space.
pub open spec fn ident_ok(s: Seq<char>) -> bool {
    !trim_spec(s).contains(' ')
}

/// The character that a character literal stands for: the text between
/// the quotes (the whole text where it is not quoted), read as one of the
/// escapes `\n`, `\t`, `\r`, `\'`, `\\`, or else as its first character,
/// or NUL where it is empty.
pub open spec fn char_literal_value(s: Seq<char>) -> char {
    let inner = if s.len() >= 2 && s[0] == '\'' && s.last() == '\'' {
        s.subrange(1, s.len() - 1)
    } else {
        s
    };
    if inner == seq!['\\', 'n'] {
        '\n'
    } else if inner == seq!['\\', 't'] {
        '\t'
    } else if inner == seq!['\\', 'r'] {
        '\r'
    } else if inner == seq!['\\', '\''] {
        '\''
    } else if inner == seq!['\\', '\\'] {
        '\\'
    } else if inner.len() > 0 {
        inner[0]
    } else {
        '\0'
    }
}

impl ParserState {
    pub fn new(namespace: String) -> (res: Self)
        ensures
            res@.namespace == namespace@,
            res@.functions == Seq::<Seq<char>>::empty(),
            res@.source_code == Seq::<char>::empty(),
            res@.source_file_name == Seq::<char>::empty(),
    {
        let res = ParserState {
            namespace,
            functions: Vec::new(),
            source_code: String::new(),
            source_file_name: String::new(),
        };
        assert(res@.functions =~= Seq::<Seq<char>>::empty());
        res
    }

    pub fn with_source(self, source_code: String, source_file_name: String) -> (res: Self)
        ensures
            res@ == (ParserStateV {
                source_code: source_code@,
                source_file_name: source_file_name@,
                ..self@
            }),
    {
        let mut s = self;
        s.source_code = source_code;
        s.source_file_name = source_file_name;
        s
    }

    /// An identifier without surrounding white space.
    pub fn clean_ident(&self, s: &str) -> (res: String)
        requires
            ident_ok(s@),
        ensures
            res@ == trim_spec(s@),
    {
        trim(s)
    }

    /// Whether an identifier token's text is usable as a name.
    pub fn ident_usable(&self, s: &str) -> (res: bool)
        ensures
            res == ident_ok(s@),
    {
        let t = trim(s);
        let n = t.as_str().unicode_len();
        let mut i: usize = 0;
        while i < n
            invariant
                n == t@.len(),
                t@ == trim_spec(s@),
                i <= n,
                forall|j: int| 0 <= j < i ==> t@[j] != ' ',
            decreases n - i,
        {
            if t.as_str().get_char(i) == ' ' {
                return false;
            }
            i = i + 1;
        }
        true
    }

    /// `s` put in the state's namespace.
    pub fn with_namespace(&self, s: &str) -> (res: String)
        ensures
            res@ == namespaced(self.namespace@, s@),
    {
        let mut res = self.namespace.clone();
        res.append("::");
        res.append(s);
        proof {
            reveal_strlit("::");
        }
        assert(res@ =~= namespaced(self.namespace@, s@));
        res
    }

    /// Whether a function with source name `name` has been built.
    pub fn knows_function(&self, name: &String) -> (res: bool)
        ensures
            res == self@.functions.contains(name@),
    {
        let mut i: usize = 0;
        while i < self.functions.len()
            invariant
                i <= self.functions@.len(),
                forall|j: int| 0 <= j < i ==> self.functions@[j]@ != name@,
            decreases self.functions@.len() - i,
        {
            if self.functions[i] == *name {
                assert(self@.functions[i as int] == name@);
                return true;
            }
            i = i + 1;
        }
        proof {
            if self@.functions.contains(name@) {
                let j = choose|j: int| 0 <= j < self@.functions.len() && self@.functions[j] == name@;
                assert(self.functions@[j]@ == name@);
            }
        }
        false
    }

    /// Records that a function with source name `name` has been built.
    pub fn add_function(&mut self, name: String)
        ensures
            final(self)@ == (ParserStateV {
                functions: add_name(old(self)@.functions, name@),
                ..old(self)@
            }),
    {
        if !self.knows_function(&name) {
            let ghost before = self@.functions;
            self.functions.push(name);
            assert(self@.functions =~= before.push(name@));
        }
    }

    /// The character that a character literal's text stands for.
    pub fn parse_char_literal(&self, s: &str) -> (res: char)
        ensures
            res == char_literal_value(s@),
    {
        let n = s.unicode_len();
        let inner = if n >= 2 && s.get_char(0) == '\'' && s.get_char(n - 1) == '\'' {
            s.substring_char(1, n - 1)
        } else {
            s
        };
        let m = inner.unicode_len();
        if m == 2 {
            let a = inner.get_char(0);
            let b = inner.get_char(1);
            if a == '\\' {
                proof {
                    assert(inner@ =~= seq![a, b]);
                }
                if b == 'n' {
                    return '\n';
                } else if b == 't' {
                    return '\t';
                } else if b == 'r' {
                    return '\r';
                } else if b == '\'' {
                    return '\'';
                } else if b == '\\' {
                    return '\\';
                }
            }
        }
        if m > 0 {
            inner.get_char(0)
        } else {
            '\0'
        }
    }
}

impl Default for ParserState {
    /// A state with the empty namespace.
    fn default() -> (res: Self)
        ensures
            res@ == fresh_state(Seq::empty(), Seq::empty(), Seq::empty()),
    {
        let res = ParserState::new(String::new());
        assert(res@.namespace =~= Seq::<char>::empty());
        res
    }
}

/// The state of a builder that has just been made for a source file.
pub open spec fn fresh_state(namespace: Seq<char>, source_code: Seq<char>, source_file_name: Seq<char>) -> ParserStateV {
    ParserStateV { namespace, functions: Seq::empty(), source_code, source_file_name }
}

/// Builds the program of a source file's tree, with a fresh builder whose
/// namespace is `namespace`.
pub fn parse_program(n: &Node, namespace: String, source_code: String, source_file_name: String) -> (res: Result<Program, ParseError>)
    requires
        program_spec(fresh_state(namespace@, source_code@, source_file_name@), *n) is Some,
    ensures
        program_spec(fresh_state(namespace@, source_code@, source_file_name@), *n) matches Some(
            (_, r),
        ) && r == program_result_v(res),
{
    let mut state = ParserState::new(namespace).with_source(source_code, source_file_name);
    assert(state@ == fresh_state(namespace@, source_code@, source_file_name@));
    state.parse_program(n)
}

} // verus!
