//! The tokens of a document, and where to find them by line and by name.

use crate::lsp::position::Position;
use crate::lsp::token::Token;
use std::collections::HashMap;
use vstd::prelude::*;
use vstd::string::StringExecFns;

verus! {

broadcast use vstd::std_specs::hash::group_hash_axioms;

/// The indices, in ascending order, of those of the first `n` tokens that
/// start on `line`.
pub open spec fn line_indices(tokens: Seq<Token>, line: u32, n: nat) -> Seq<usize>
    decreases n,
{
    if n == 0 || n > tokens.len() {
        Seq::empty()
    } else {
        let head = line_indices(tokens, line, (n - 1) as nat);
        if tokens[n - 1].line_start == line {
            head.push((n - 1) as usize)
        } else {
            head
        }
    }
}

/// The indices, in ascending order, of those of the first `n` tokens that
/// are named `name`.
pub open spec fn name_indices(tokens: Seq<Token>, name: Seq<char>, n: nat) -> Seq<usize>
    decreases n,
{
    if n == 0 || n > tokens.len() {
        Seq::empty()
    } else {
        let head = name_indices(tokens, name, (n - 1) as nat);
        if tokens[n - 1].name@ == name {
            head.push((n - 1) as usize)
        } else {
            head
        }
    }
}

/// The first of `indices`, from place `from` on, whose token holds the
/// offset `character`.
pub open spec fn first_within(tokens: Seq<Token>, indices: Seq<usize>, character: u32, from: nat)
    -> Option<usize>
    decreases indices.len() - from,
{
    if from >= indices.len() {
        None
    } else if indices[from as int] < tokens.len()
        && tokens[indices[from as int] as int].spec_is_within_character_range(character) {
        Some(indices[from as int])
    } else {
        first_within(tokens, indices, character, from + 1)
    }
}

/// The first of `indices`, from place `from` on, whose token declares its
/// name.
pub open spec fn first_declared(tokens: Seq<Token>, indices: Seq<usize>, from: nat) -> Option<usize>
    decreases indices.len() - from,
{
    if from >= indices.len() {
        None
    } else if indices[from as int] < tokens.len()
        && tokens[indices[from as int] as int].spec_is_initial_declaration() {
        Some(indices[from as int])
    } else {
        first_declared(tokens, indices, from + 1)
    }
}

/// The first token that starts on the line of `position` and holds its
/// offset.
pub open spec fn spec_token_at_position(tokens: Seq<Token>, position: Position) -> Option<usize> {
    first_within(
        tokens,
        line_indices(tokens, position.line, tokens.len()),
        position.character,
        0,
    )
}

/// The first token named `name` that declares its name.
pub open spec fn spec_declared_token(tokens: Seq<Token>, name: Seq<char>) -> Option<usize> {
    first_declared(tokens, name_indices(tokens, name, tokens.len()), 0)
}

/// The indices of the tokens of one name.
#[derive(Debug)]
pub struct NameEntry {
    pub name: String,
    pub indices: Vec<usize>,
}

/// Whether `lines` holds, for each line, the tokens among the first `n` that
/// start on it, and nothing for a line on which none starts.
pub open spec fn lines_match(lines: Map<u32, Vec<usize>>, tokens: Seq<Token>, n: nat) -> bool {
    forall|line: u32|
        #![trigger lines.contains_key(line)]
        #![trigger line_indices(tokens, line, n)]
        {
            &&& lines.contains_key(line) <==> line_indices(tokens, line, n).len() > 0
            &&& lines.contains_key(line) ==> lines[line]@ == line_indices(tokens, line, n)
        }
}

/// Whether `values` holds, for each name, the tokens among the first `n` that
/// bear it, and no entry for a name that none bears.
pub open spec fn values_match(values: Seq<NameEntry>, tokens: Seq<Token>, n: nat) -> bool {
    &&& forall|k: int|
        0 <= k < values.len() ==> {
            &&& (#[trigger] values[k]).indices@ == name_indices(tokens, values[k].name@, n)
            &&& values[k].indices@.len() > 0
        }
    &&& forall|name: Seq<char>|
        #![trigger name_indices(tokens, name, n)]
        name_indices(tokens, name, n).len() > 0 ==> exists|k: int|
            0 <= k < values.len() && (#[trigger] values[k]).name@ == name
    &&& forall|j: int, k: int|
        0 <= j < k < values.len() ==> (#[trigger] values[j]).name@ != (#[trigger] values[k]).name@
}

/// Every index that is listed for a line or a name is the index of a token.
pub proof fn lemma_indices_in_range(tokens: Seq<Token>, line: u32, name: Seq<char>, n: nat)
    requires
        n <= tokens.len(),
    ensures
        forall|i: int|
            0 <= i < line_indices(tokens, line, n).len() ==> #[trigger] line_indices(
                tokens,
                line,
                n,
            )[i] < n,
        forall|i: int|
            0 <= i < name_indices(tokens, name, n).len() ==> #[trigger] name_indices(
                tokens,
                name,
                n,
            )[i] < n,
    decreases n,
{
    if n > 0 {
        lemma_indices_in_range(tokens, line, name, (n - 1) as nat);
        let on_line = line_indices(tokens, line, n);
        let before = line_indices(tokens, line, (n - 1) as nat);
        assert forall|i: int| 0 <= i < on_line.len() implies #[trigger] on_line[i] < n by {
            if i < before.len() {
                assert(on_line[i] == before[i]);
            }
        }
        let named = name_indices(tokens, name, n);
        let earlier = name_indices(tokens, name, (n - 1) as nat);
        assert forall|i: int| 0 <= i < named.len() implies #[trigger] named[i] < n by {
            if i < earlier.len() {
                assert(named[i] == earlier[i]);
            }
        }
    }
}

/// The tokens of a document with two tables over them: for each line the
/// tokens that start on it, for each name the tokens that bear it.
#[derive(Debug)]
pub struct TokenIndex {
    tokens: Vec<Token>,
    lines: HashMap<u32, Vec<usize>>,
    values: Vec<NameEntry>,
}

impl View for TokenIndex {
    type V = Seq<Token>;

    closed spec fn view(&self) -> Seq<Token> {
        self.tokens@
    }
}

/// Finds the entry of a name.
fn find_entry(values: &Vec<NameEntry>, name: &String) -> (found: Option<usize>)
    ensures
        match found {
            Some(k) => k < values.len() && values@[k as int].name@ == name@,
            None => forall|k: int| 0 <= k < values.len() ==> (#[trigger] values@[k]).name@ != name@,
        },
{
    let mut k: usize = 0;
    while k < values.len()
        invariant
            k <= values.len(),
            forall|j: int| 0 <= j < k ==> (#[trigger] values@[j]).name@ != name@,
        decreases values.len() - k,
    {
        if values[k].name == *name {
            return Some(k);
        }
        k += 1;
    }
    None
}

impl TokenIndex {
    #[verifier::type_invariant]
    spec fn well_formed(&self) -> bool {
        &&& lines_match(self.lines@, self.tokens@, self.tokens@.len())
        &&& values_match(self.values@, self.tokens@, self.tokens@.len())
    }

    /// The index of no tokens.
    pub fn new() -> (index: TokenIndex)
        ensures
            index@ == Seq::<Token>::empty(),
    {
        TokenIndex { tokens: Vec::new(), lines: HashMap::new(), values: Vec::new() }
    }

    /// Takes the tokens and lists them by line and by name.
    pub fn store_tokens(tokens: Vec<Token>) -> (index: TokenIndex)
        ensures
            index@ == tokens@,
    {
        let mut lines: HashMap<u32, Vec<usize>> = HashMap::new();
        let mut values: Vec<NameEntry> = Vec::new();
        let mut index: usize = 0;
        while index < tokens.len()
            invariant
                index <= tokens.len(),
                lines_match(lines@, tokens@, index as nat),
                values_match(values@, tokens@, index as nat),
            decreases tokens.len() - index,
        {
            let token = &tokens[index];
            let line = token.get_line_start();
            let ghost lines_before = lines@;
            let ghost values_before = values@;

            // insert index into the table for lines
            let mut on_line: Vec<usize> = match lines.remove(&line) {
                Some(v) => v,
                None => Vec::new(),
            };
            proof {
                assert(on_line@ =~= line_indices(tokens@, line, index as nat));
            }
            on_line.push(index);
            lines.insert(line, on_line);

            // insert index into the table for names
            match find_entry(&values, &token.name) {
                Some(k) => {
                    let mut entry = values.remove(k);
                    entry.indices.push(index);
                    values.insert(k, entry);
                    proof {
                        assert forall|j: int| 0 <= j < values@.len() implies {
                            &&& (#[trigger] values@[j]).indices@ == name_indices(
                                tokens@,
                                values@[j].name@,
                                (index + 1) as nat,
                            )
                            &&& values@[j].indices@.len() > 0
                        } by {
                            assert(values@[j].name@ == values_before[j].name@);
                            if j != k {
                                assert(values@[j] == values_before[j]);
                            }
                        }
                        assert forall|name: Seq<char>|
                            #![trigger name_indices(tokens@, name, (index + 1) as nat)]
                            name_indices(tokens@, name, (index + 1) as nat).len()
                                > 0 implies exists|j: int|
                            0 <= j < values@.len() && (#[trigger] values@[j]).name@ == name by {
                            if name == token.name@ {
                                assert(values@[k as int].name@ == name);
                            } else {
                                assert(name_indices(tokens@, name, index as nat).len() > 0);
                                let j = choose|j: int|
                                    0 <= j < values_before.len() && (
                                    #[trigger] values_before[j]).name@ == name;
                                assert(values@[j].name@ == name);
                            }
                        }
                        assert forall|i: int, j: int| 0 <= i < j < values@.len() implies (
                        #[trigger] values@[i]).name@ != (#[trigger] values@[j]).name@ by {
                            assert(values@[i].name@ == values_before[i].name@);
                            assert(values@[j].name@ == values_before[j].name@);
                        }
                    }
                },
                None => {
                    let mut indices: Vec<usize> = Vec::new();
                    indices.push(index);
                    let entry = NameEntry { name: token.name.clone(), indices };
                    values.push(entry);
                    proof {
                        let last = values_before.len() as int;
                        assert(name_indices(tokens@, token.name@, index as nat).len() == 0);
                        assert(values@[last].indices@ =~= name_indices(
                            tokens@,
                            token.name@,
                            (index + 1) as nat,
                        ));
                        assert forall|j: int| 0 <= j < values@.len() implies {
                            &&& (#[trigger] values@[j]).indices@ == name_indices(
                                tokens@,
                                values@[j].name@,
                                (index + 1) as nat,
                            )
                            &&& values@[j].indices@.len() > 0
                        } by {
                            if j < last {
                                assert(values@[j] == values_before[j]);
                            }
                        }
                        assert forall|name: Seq<char>|
                            #![trigger name_indices(tokens@, name, (index + 1) as nat)]
                            name_indices(tokens@, name, (index + 1) as nat).len()
                                > 0 implies exists|j: int|
                            0 <= j < values@.len() && (#[trigger] values@[j]).name@ == name by {
                            if name == token.name@ {
                                assert(values@[last].name@ == name);
                            } else {
                                assert(name_indices(tokens@, name, index as nat).len() > 0);
                                let j = choose|j: int|
                                    0 <= j < values_before.len() && (
                                    #[trigger] values_before[j]).name@ == name;
                                assert(values@[j].name@ == name);
                            }
                        }
                        assert forall|i: int, j: int| 0 <= i < j < values@.len() implies (
                        #[trigger] values@[i]).name@ != (#[trigger] values@[j]).name@ by {
                            assert(values@[i] == values_before[i]);
                            if j < last {
                                assert(values@[j] == values_before[j]);
                            }
                        }
                    }
                },
            }
            proof {
                assert forall|l: u32|
                    #![trigger lines@.contains_key(l)]
                    #![trigger line_indices(tokens@, l, (index + 1) as nat)]
                    {
                        &&& lines@.contains_key(l) <==> line_indices(
                            tokens@,
                            l,
                            (index + 1) as nat,
                        ).len() > 0
                        &&& lines@.contains_key(l) ==> lines@[l]@ == line_indices(
                            tokens@,
                            l,
                            (index + 1) as nat,
                        )
                    } by {
                    if l != line {
                        assert(lines@.contains_key(l) == lines_before.contains_key(l));
                        assert(line_indices(tokens@, l, (index + 1) as nat) == line_indices(
                            tokens@,
                            l,
                            index as nat,
                        ));
                    }
                }
            }
            index += 1;
        }
        TokenIndex { tokens, lines, values }
    }

    /// The tokens, in the order in which they were stored.
    pub fn get_tokens(&self) -> (tokens: &Vec<Token>)
        ensures
            tokens@ == self@,
    {
        &self.tokens
    }

    /// The first token that starts on the line of `position` and holds its
    /// offset.
    pub fn get_token_at_position(&self, position: Position) -> (found: Option<&Token>)
        ensures
            match found {
                Some(token) => spec_token_at_position(self@, position) matches Some(i) && i
                    < self@.len() && *token == self@[i as int],
                None => spec_token_at_position(self@, position) is None,
            },
    {
        proof {
            use_type_invariant(self);
        }
        let line = position.line;
        match self.lines.get(&line) {
            Some(indices) => {
                proof {
                    lemma_indices_in_range(self.tokens@, line, Seq::empty(), self.tokens@.len());
                }
                let mut i: usize = 0;
                while i < indices.len()
                    invariant
                        i <= indices.len(),
                        line == position.line,
                        indices@ == line_indices(self.tokens@, line, self.tokens@.len()),
                        forall|j: int| 0 <= j < indices@.len() ==> #[trigger] indices@[j] < self.tokens@.len(),
                        first_within(self.tokens@, indices@, position.character, 0) == first_within(
                            self.tokens@,
                            indices@,
                            position.character,
                            i as nat,
                        ),
                    decreases indices.len() - i,
                {
                    let token = &self.tokens[indices[i]];
                    if token.is_within_character_range(position.character) {
                        return Some(token);
                    }
                    i += 1;
                }
                None
            },
            None => None,
        }
    }

    /// All tokens named `name`, in the order in which they were stored, or
    /// `None` where there is none.
    pub fn get_all_tokens_by_single_name(&self, name: &str) -> (found: Option<Vec<&Token>>)
        ensures
            match found {
                Some(list) => {
                    let indices = name_indices(self@, name@, self@.len());
                    &&& indices.len() > 0
                    &&& list@.len() == indices.len()
                    &&& forall|j: int| 0 <= j < indices.len() ==> #[trigger] indices[j] < self@.len()
                    &&& forall|j: int|
                        0 <= j < list@.len() ==> *(#[trigger] list@[j]) == self@[indices[j] as int]
                },
                None => name_indices(self@, name@, self@.len()).len() == 0,
            },
    {
        proof {
            use_type_invariant(self);
        }
        let wanted = String::from_str(name);
        match find_entry(&self.values, &wanted) {
            Some(k) => {
                let indices = &self.values[k].indices;
                proof {
                    lemma_indices_in_range(self.tokens@, 0, name@, self.tokens@.len());
                }
                let mut list: Vec<&Token> = Vec::new();
                let mut i: usize = 0;
                while i < indices.len()
                    invariant
                        i <= indices.len(),
                        indices@ == name_indices(self.tokens@, name@, self.tokens@.len()),
                        forall|j: int| 0 <= j < indices@.len() ==> #[trigger] indices@[j] < self.tokens@.len(),
                        list@.len() == i,
                        forall|j: int|
                            0 <= j < i ==> *(#[trigger] list@[j]) == self.tokens@[indices@[j] as int],
                    decreases indices.len() - i,
                {
                    list.push(&self.tokens[indices[i]]);
                    i += 1;
                }
                Some(list)
            },
            None => {
                proof {
                    if name_indices(self.tokens@, name@, self.tokens@.len()).len() > 0 {
                        let k = choose|k: int|
                            0 <= k < self.values@.len() && (#[trigger] self.values@[k]).name@
                                == name@;
                        assert(false);
                    }
                }
                None
            },
        }
    }

    /// The first token named `name` that declares its name.
    pub fn get_declared_token(&self, name: &str) -> (found: Option<&Token>)
        ensures
            match found {
                Some(token) => spec_declared_token(self@, name@) matches Some(i) && i < self@.len()
                    && *token == self@[i as int],
                None => spec_declared_token(self@, name@) is None,
            },
    {
        proof {
            use_type_invariant(self);
        }
        let wanted = String::from_str(name);
        match find_entry(&self.values, &wanted) {
            Some(k) => {
                let indices = &self.values[k].indices;
                proof {
                    lemma_indices_in_range(self.tokens@, 0, name@, self.tokens@.len());
                }
                let mut i: usize = 0;
                while i < indices.len()
                    invariant
                        i <= indices.len(),
                        indices@ == name_indices(self.tokens@, name@, self.tokens@.len()),
                        forall|j: int| 0 <= j < indices@.len() ==> #[trigger] indices@[j] < self.tokens@.len(),
                        first_declared(self.tokens@, indices@, 0) == first_declared(
                            self.tokens@,
                            indices@,
                            i as nat,
                        ),
                    decreases indices.len() - i,
                {
                    let token = &self.tokens[indices[i]];
                    if token.is_initial_declaration() {
                        return Some(token);
                    }
                    i += 1;
                }
                None
            },
            None => {
                proof {
                    if name_indices(self.tokens@, name@, self.tokens@.len()).len() > 0 {
                        let k = choose|k: int|
                            0 <= k < self.values@.len() && (#[trigger] self.values@[k]).name@
                                == name@;
                        assert(false);
                    }
                }
                None
            },
        }
    }
}

} // verus!
