//! The syntax tree that the keyword parsers build.

use vstd::prelude::*;
use crate::span::{covering, span, Span};

verus! {

/// Identifies a declaration of a working set.
pub type DeclId = usize;

/// Identifies a block of a working set.
pub type BlockId = usize;

/// Identifies an overlay of a working set.
pub type OverlayId = usize;

/// Identifies a variable of a working set.
pub type VarId = usize;

/// The static type of an expression or a variable.
#[derive(Debug, PartialEq, Eq)]
pub enum Type {
    Unknown,
    Any,
    Nothing,
    Bool,
    Int,
    String,
    Block,
    Signature,
    List(Box<Type>),
}

impl Type {
    /// A second value of the same type.
    pub fn copy(&self) -> (same: Type)
        ensures
            same == *self,
        decreases *self,
    {
        match self {
            Type::Unknown => Type::Unknown,
            Type::Any => Type::Any,
            Type::Nothing => Type::Nothing,
            Type::Bool => Type::Bool,
            Type::Int => Type::Int,
            Type::String => Type::String,
            Type::Block => Type::Block,
            Type::Signature => Type::Signature,
            Type::List(item) => Type::List(Box::new(item.copy())),
        }
    }
}

impl Clone for Type {
    fn clone(&self) -> (same: Type)
        ensures
            same == *self,
    {
        self.copy()
    }
}

/// The syntactic form that a parameter accepts. Forms that are made of
/// other forms are told apart by their kind alone.
#[derive(Clone, Copy, Debug, PartialEq, Eq, Structural)]
pub enum SyntaxShape {
    Any,
    Binary,
    Block,
    Boolean,
    CellPath,
    Custom,
    DateTime,
    Duration,
    Expression,
    Filepath,
    Filesize,
    FullCellPath,
    GlobPattern,
    ImportPattern,
    Int,
    Keyword,
    List,
    MathExpression,
    Number,
    Operator,
    Range,
    Record,
    RowCondition,
    Signature,
    String,
    Table,
    VarWithOptType,
    Variable,
}

/// The group of commands that a command is listed under.
#[derive(Clone, Copy, Debug, PartialEq, Eq, Structural)]
pub enum Category {
    Default,
    Conversions,
    Core,
    Custom,
    Date,
    Deprecated,
    Env,
    Experimental,
    FileSystem,
    Filters,
    Formats,
    Generators,
    Hash,
    Math,
    Network,
    Platform,
    Random,
    Shells,
    Strings,
    System,
    Viewers,
}

/// A parameter that is given by its position.
#[derive(Debug, Clone, PartialEq, Eq)]
pub struct PositionalArg {
    pub name: String,
    pub desc: String,
    pub shape: SyntaxShape,
    pub var_id: Option<VarId>,
}

/// A parameter that is given by its name.
#[derive(Debug, Clone, PartialEq, Eq)]
pub struct Flag {
    pub long: String,
    pub short: Option<char>,
    pub arg: Option<SyntaxShape>,
    pub required: bool,
    pub desc: String,
    pub var_id: Option<VarId>,
}

/// The name of a command and the parameters it takes.
#[derive(Debug, Clone, PartialEq, Eq)]
pub struct Signature {
    pub name: String,
    pub usage: String,
    pub required_positional: Vec<PositionalArg>,
    pub optional_positional: Vec<PositionalArg>,
    pub rest_positional: Option<PositionalArg>,
    pub named: Vec<Flag>,
    pub category: Category,
}

/// A signature with its texts as character sequences and its lists as sequences.
pub struct SignatureView {
    pub name: Seq<char>,
    pub usage: Seq<char>,
    pub required_positional: Seq<PositionalArg>,
    pub optional_positional: Seq<PositionalArg>,
    pub rest_positional: Option<PositionalArg>,
    pub named: Seq<Flag>,
    pub category: Category,
}

impl View for Signature {
    type V = SignatureView;

    open spec fn view(&self) -> SignatureView {
        SignatureView {
            name: self.name@,
            usage: self.usage@,
            required_positional: self.required_positional@,
            optional_positional: self.optional_positional@,
            rest_positional: self.rest_positional,
            named: self.named@,
            category: self.category,
        }
    }
}

impl SignatureView {
    /// The parameter at a position: the required ones come first, then the
    /// optional ones, and the one that takes the rest stands at every
    /// position after them.
    pub open spec fn positional(self, position: int) -> Option<PositionalArg> {
        if 0 <= position < self.required_positional.len() {
            Some(self.required_positional[position])
        } else if self.required_positional.len() <= position < self.required_positional.len()
            + self.optional_positional.len() {
            Some(self.optional_positional[position - self.required_positional.len()])
        } else if 0 <= position {
            self.rest_positional
        } else {
            None
        }
    }

    /// The same signature under another name.
    pub open spec fn named_as(self, name: Seq<char>) -> SignatureView {
        SignatureView { name, ..self }
    }

    /// How many parameters are given by position.
    pub open spec fn num_positionals(self) -> nat {
        self.required_positional.len() + self.optional_positional.len()
    }
}

impl PositionalArg {
    /// A second parameter with the same fields.
    pub fn copy(&self) -> (same: PositionalArg)
        ensures
            same == *self,
    {
        PositionalArg {
            name: self.name.clone(),
            desc: self.desc.clone(),
            shape: self.shape,
            var_id: self.var_id,
        }
    }
}

impl Flag {
    /// A second flag with the same fields.
    pub fn copy(&self) -> (same: Flag)
        ensures
            same == *self,
    {
        Flag {
            long: self.long.clone(),
            short: self.short,
            arg: self.arg,
            required: self.required,
            desc: self.desc.clone(),
            var_id: self.var_id,
        }
    }
}

fn copy_positionals(args: &Vec<PositionalArg>) -> (same: Vec<PositionalArg>)
    ensures
        same@ == args@,
{
    let mut same: Vec<PositionalArg> = Vec::new();
    let mut i: usize = 0;
    while i < args.len()
        invariant
            i <= args@.len(),
            same@ == args@.take(i as int),
        decreases args@.len() - i,
    {
        same.push(args[i].copy());
        assert(args@.take(i + 1) =~= args@.take(i as int).push(args@[i as int]));
        i += 1;
    }
    assert(args@.take(i as int) =~= args@);
    same
}

fn copy_flags(flags: &Vec<Flag>) -> (same: Vec<Flag>)
    ensures
        same@ == flags@,
{
    let mut same: Vec<Flag> = Vec::new();
    let mut i: usize = 0;
    while i < flags.len()
        invariant
            i <= flags@.len(),
            same@ == flags@.take(i as int),
        decreases flags@.len() - i,
    {
        same.push(flags[i].copy());
        assert(flags@.take(i + 1) =~= flags@.take(i as int).push(flags@[i as int]));
        i += 1;
    }
    assert(flags@.take(i as int) =~= flags@);
    same
}

impl Signature {
    /// A signature with a name and no parameters.
    pub fn new(name: String) -> (signature: Signature)
        ensures
            signature@.name == name@,
            signature@.usage == Seq::<char>::empty(),
            signature@.required_positional == Seq::<PositionalArg>::empty(),
            signature@.optional_positional == Seq::<PositionalArg>::empty(),
            signature@.rest_positional is None,
            signature@.named == Seq::<Flag>::empty(),
            signature@.category == Category::Default,
    {
        Signature {
            name,
            usage: String::new(),
            required_positional: Vec::new(),
            optional_positional: Vec::new(),
            rest_positional: None,
            named: Vec::new(),
            category: Category::Default,
        }
    }

    /// A signature with a name and no parameters, to add parameters to.
    pub fn build(name: &str) -> (signature: Signature)
        ensures
            signature@ == (SignatureView {
                name: name@,
                usage: Seq::empty(),
                required_positional: Seq::empty(),
                optional_positional: Seq::empty(),
                rest_positional: None,
                named: Seq::empty(),
                category: Category::Default,
            }),
    {
        Signature::new(name.to_owned())
    }

    /// With one more parameter that must be given, by position.
    pub fn required(self, name: &str, shape: SyntaxShape, desc: &str) -> (signature: Signature)
        ensures
            signature@.required_positional.len() == self@.required_positional.len() + 1,
            signature@.required_positional.drop_last() == self@.required_positional,
            signature@.required_positional.last().name@ == name@,
            signature@.required_positional.last().desc@ == desc@,
            signature@.required_positional.last().shape == shape,
            signature@.required_positional.last().var_id is None,
            signature@ == (SignatureView {
                required_positional: signature@.required_positional,
                ..self@
            }),
    {
        let mut signature = self;
        let ghost before = signature.required_positional@;
        signature.required_positional.push(
            PositionalArg { name: name.to_owned(), desc: desc.to_owned(), shape, var_id: None },
        );
        assert(signature.required_positional@.drop_last() =~= before);
        signature
    }

    /// With a parameter that takes all the arguments that are left.
    pub fn rest(self, name: &str, shape: SyntaxShape, desc: &str) -> (signature: Signature)
        ensures
            signature@.rest_positional matches Some(arg) && arg.name@ == name@ && arg.desc@
                == desc@ && arg.shape == shape && arg.var_id is None,
            signature@ == (SignatureView { rest_positional: signature@.rest_positional, ..self@ }),
    {
        let mut signature = self;
        signature.rest_positional = Some(
            PositionalArg { name: name.to_owned(), desc: desc.to_owned(), shape, var_id: None },
        );
        signature
    }

    /// Listed under `category`.
    pub fn category(self, category: Category) -> (signature: Signature)
        ensures
            signature@ == (SignatureView { category, ..self@ }),
    {
        let mut signature = self;
        signature.category = category;
        signature
    }

    /// The parameter at a position.
    pub fn get_positional(&self, position: usize) -> (arg: Option<&PositionalArg>)
        ensures
            match arg {
                Some(found) => self@.positional(position as int) == Some(*found),
                None => self@.positional(position as int) is None,
            },
    {
        if position < self.required_positional.len() {
            Some(&self.required_positional[position])
        } else if position - self.required_positional.len() < self.optional_positional.len() {
            Some(&self.optional_positional[position - self.required_positional.len()])
        } else {
            self.rest_positional.as_ref()
        }
    }

    /// A second signature that reads the same.
    pub fn copy(&self) -> (same: Signature)
        ensures
            same@ == self@,
    {
        Signature {
            name: self.name.clone(),
            usage: self.usage.clone(),
            required_positional: copy_positionals(&self.required_positional),
            optional_positional: copy_positionals(&self.optional_positional),
            rest_positional: match &self.rest_positional {
                Some(arg) => Some(arg.copy()),
                None => None,
            },
            named: copy_flags(&self.named),
            category: self.category,
        }
    }
}

/// One member selector of an import pattern.
#[derive(Debug, Clone, PartialEq, Eq)]
pub enum ImportPatternMember {
    /// `*`: every export, under its bare name.
    Glob { span: Span },
    /// One export.
    Name { name: Vec<u8>, span: Span },
    /// A list of exports.
    List { names: Vec<(Vec<u8>, Span)> },
}

/// The head of an import pattern: the module, or the command, that it names.
#[derive(Debug, Clone, PartialEq, Eq)]
pub struct ImportPatternHead {
    pub name: Vec<u8>,
    pub span: Span,
}

/// What a `use` or a `hide` names: a head, member selectors, and the names
/// that a `hide` has hidden.
#[derive(Debug, Clone, PartialEq, Eq)]
pub struct ImportPattern {
    pub head: ImportPatternHead,
    pub members: Vec<ImportPatternMember>,
    pub hidden: Vec<Vec<u8>>,
}

impl ImportPattern {
    /// The pattern with an empty head, no members and nothing hidden.
    pub fn new() -> (pattern: ImportPattern)
        ensures
            pattern.head.name@ == Seq::<u8>::empty(),
            pattern.head.span == (Span { start: 0, end: 0 }),
            pattern.members@ == Seq::<ImportPatternMember>::empty(),
            pattern.hidden@ == Seq::<Vec<u8>>::empty(),
    {
        ImportPattern {
            head: ImportPatternHead { name: Vec::new(), span: Span { start: 0, end: 0 } },
            members: Vec::new(),
            hidden: Vec::new(),
        }
    }

    /// The same pattern with `hidden` as its hidden names.
    pub fn with_hidden(self, hidden: Vec<Vec<u8>>) -> (pattern: ImportPattern)
        ensures
            pattern.head == self.head,
            pattern.members == self.members,
            pattern.hidden == hidden,
    {
        ImportPattern { head: self.head, members: self.members, hidden }
    }
}

/// The forms of an expression.
#[derive(Debug, PartialEq, Eq)]
pub enum Expr {
    Bool(bool),
    Int(i64),
    String(String),
    Var(VarId),
    VarDecl(VarId),
    Call(Box<Call>),
    Block(BlockId),
    RowCondition(BlockId),
    List(Vec<Expression>),
    Keyword(Vec<u8>, Span, Box<Expression>),
    Signature(Box<Signature>),
    ImportPattern(ImportPattern),
    Nothing,
    Garbage,
}

/// A node of the tree: a form, where it stands, and its type.
#[derive(Debug, PartialEq, Eq)]
pub struct Expression {
    pub expr: Expr,
    pub span: Span,
    pub ty: Type,
    pub custom_completion: Option<String>,
}

/// A call of a declared command.
#[derive(Debug, PartialEq, Eq)]
pub struct Call {
    pub head: Span,
    pub decl_id: DeclId,
    pub positional: Vec<Expression>,
    pub named: Vec<(String, Option<Expression>)>,
}

/// Expressions whose values flow from one to the next.
#[derive(Debug, PartialEq, Eq)]
pub struct Pipeline {
    pub expressions: Vec<Expression>,
}

/// One statement of a block.
#[derive(Debug, PartialEq, Eq)]
pub enum Statement {
    Declaration(DeclId),
    Pipeline(Pipeline),
}

/// A sequence of statements with the signature it is called by.
#[derive(Debug, PartialEq, Eq)]
pub struct Block {
    pub signature: Signature,
    pub statements: Vec<Statement>,
    pub captures: Vec<VarId>,
}

/// What a module exports under one name.
#[derive(Clone, Copy, Debug, PartialEq, Eq, Structural)]
pub enum Exportable {
    Decl(DeclId),
    EnvVar(BlockId),
}

impl Expression {
    /// Whether this is the placeholder that stands for text that did not parse.
    pub open spec fn is_garbage_at(self, span: Span) -> bool {
        &&& self.expr is Garbage
        &&& self.span == span
        &&& self.ty == Type::Unknown
        &&& self.custom_completion is None
    }

    /// The text, if this is a string.
    pub open spec fn spec_as_string(self) -> Option<Seq<char>> {
        match self.expr {
            Expr::String(text) => Some(text@),
            _ => None,
        }
    }

    /// The text, if this is a string.
    pub fn as_string(&self) -> (text: Option<String>)
        ensures
            text is Some <==> self.spec_as_string() is Some,
            text matches Some(t) ==> self.spec_as_string() == Some(t@),
    {
        match &self.expr {
            Expr::String(text) => Some(text.clone()),
            _ => None,
        }
    }

    /// The signature, if this is one.
    pub open spec fn spec_as_signature(self) -> Option<SignatureView> {
        match self.expr {
            Expr::Signature(signature) => Some(signature@),
            _ => None,
        }
    }

    /// The signature, if this is one.
    pub fn as_signature(&self) -> (signature: Option<Signature>)
        ensures
            signature is Some <==> self.spec_as_signature() is Some,
            signature matches Some(s) ==> self.spec_as_signature() == Some(s@),
    {
        match &self.expr {
            Expr::Signature(signature) => Some(signature.copy()),
            _ => None,
        }
    }

    /// The block, if this is one.
    pub open spec fn spec_as_block(&self) -> Option<BlockId> {
        match self.expr {
            Expr::Block(id) => Some(id),
            _ => None,
        }
    }

    /// The block, if this is one.
    #[verifier::when_used_as_spec(spec_as_block)]
    pub fn as_block(&self) -> (id: Option<BlockId>)
        ensures
            id == self.spec_as_block(),
    {
        match &self.expr {
            Expr::Block(id) => Some(*id),
            _ => None,
        }
    }

    /// The block of the condition, if this is a condition on rows.
    pub open spec fn spec_as_row_condition_block(&self) -> Option<BlockId> {
        match self.expr {
            Expr::RowCondition(id) => Some(id),
            _ => None,
        }
    }

    /// The block of the condition, if this is a condition on rows.
    #[verifier::when_used_as_spec(spec_as_row_condition_block)]
    pub fn as_row_condition_block(&self) -> (id: Option<BlockId>)
        ensures
            id == self.spec_as_row_condition_block(),
    {
        match &self.expr {
            Expr::RowCondition(id) => Some(*id),
            _ => None,
        }
    }

    /// The variable, if this names or declares one.
    pub open spec fn spec_as_var(&self) -> Option<VarId> {
        match self.expr {
            Expr::Var(id) => Some(id),
            Expr::VarDecl(id) => Some(id),
            _ => None,
        }
    }

    /// The variable, if this names or declares one.
    #[verifier::when_used_as_spec(spec_as_var)]
    pub fn as_var(&self) -> (id: Option<VarId>)
        ensures
            id == self.spec_as_var(),
    {
        match &self.expr {
            Expr::Var(id) => Some(*id),
            Expr::VarDecl(id) => Some(*id),
            _ => None,
        }
    }
}

impl Call {
    /// A call of `decl_id` at `head` without arguments.
    pub fn new(head: Span, decl_id: DeclId) -> (call: Call)
        ensures
            call.head == head,
            call.decl_id == decl_id,
            call.positional@ == Seq::<Expression>::empty(),
            call.named@ == Seq::<(String, Option<Expression>)>::empty(),
    {
        Call { head, decl_id, positional: Vec::new(), named: Vec::new() }
    }

    /// Whether the call has a flag called `name`.
    pub open spec fn spec_has_flag(self, name: Seq<char>) -> bool {
        exists|i: int| 0 <= i < self.named@.len() && (#[trigger] self.named@[i]).0@ == name
    }

    /// Whether the call has a flag called `name`.
    pub fn has_flag(&self, name: &str) -> (found: bool)
        ensures
            found == self.spec_has_flag(name@),
    {
        let wanted: String = name.to_owned();
        let mut i: usize = 0;
        while i < self.named.len()
            invariant
                wanted@ == name@,
                i <= self.named@.len(),
                forall|j: int| 0 <= j < i ==> (#[trigger] self.named@[j]).0@ != name@,
            decreases self.named@.len() - i,
        {
            if self.named[i].0 == wanted {
                return true;
            }
            i += 1;
        }
        false
    }

    /// Where the value of the first flag called `name` stands, if that flag
    /// is there and has a value.
    pub open spec fn spec_flag_span(self, name: Seq<char>) -> Option<Span> {
        if exists|i: int|
            0 <= i < self.named@.len() && (#[trigger] self.named@[i]).0@ == name && forall|j: int|
                0 <= j < i ==> (#[trigger] self.named@[j]).0@ != name {
            let i = choose|i: int|
                0 <= i < self.named@.len() && (#[trigger] self.named@[i]).0@ == name
                    && forall|j: int| 0 <= j < i ==> (#[trigger] self.named@[j]).0@ != name;
            match self.named@[i].1 {
                Some(value) => Some(value.span),
                None => None,
            }
        } else {
            None
        }
    }

    /// Where the value of the first flag called `name` stands.
    pub fn flag_span(&self, name: &str) -> (span: Option<Span>)
        ensures
            span == self.spec_flag_span(name@),
    {
        let wanted: String = name.to_owned();
        let mut i: usize = 0;
        while i < self.named.len()
            invariant
                wanted@ == name@,
                i <= self.named@.len(),
                forall|j: int| 0 <= j < i ==> (#[trigger] self.named@[j]).0@ != name@,
            decreases self.named@.len() - i,
        {
            if self.named[i].0 == wanted {
                proof {
                    let first = choose|k: int|
                        0 <= k < self.named@.len() && (#[trigger] self.named@[k]).0@ == name@
                            && forall|j: int|
                            0 <= j < k ==> (#[trigger] self.named@[j]).0@ != name@;
                    assert(first == i) by {
                        if first < i {
                            assert(self.named@[first].0@ != name@);
                        }
                        if i < first {
                            assert(self.named@[i as int].0@ != name@);
                        }
                    }
                }
                return match &self.named[i].1 {
                    Some(value) => Some(value.span),
                    None => None,
                };
            }
            i += 1;
        }
        None
    }
}

impl Statement {
    /// Whether this is a pipeline of the one expression `expression`.
    pub open spec fn is_single(self, expression: Expression) -> bool {
        &&& self matches Statement::Pipeline(pipeline)
        &&& pipeline.expressions@ == seq![expression]
    }

    /// Whether this is the placeholder for text at `span` that did not parse.
    pub open spec fn is_garbage(self, span: Span) -> bool {
        &&& self matches Statement::Pipeline(pipeline)
        &&& pipeline.expressions@.len() == 1
        &&& pipeline.expressions@[0].is_garbage_at(span)
    }

    /// Whether this is a pipeline of one call expression that spans `span` and
    /// has type `ty`.
    pub open spec fn is_call(self, span: Span, ty: Type) -> bool {
        &&& self matches Statement::Pipeline(pipeline)
        &&& pipeline.expressions@.len() == 1
        &&& pipeline.expressions@[0].expr is Call
        &&& pipeline.expressions@[0].span == span
        &&& pipeline.expressions@[0].ty == ty
        &&& pipeline.expressions@[0].custom_completion is None
    }

    /// The call of a statement that is one.
    pub open spec fn call(self) -> Call {
        *self->Pipeline_0.expressions@[0].expr->Call_0
    }
}

/// The placeholder expression for text at `span` that did not parse.
pub fn garbage(span: Span) -> (expression: Expression)
    ensures
        expression.is_garbage_at(span),
{
    Expression { expr: Expr::Garbage, span, ty: Type::Unknown, custom_completion: None }
}

/// The placeholder statement for the text that `spans` cover.
pub fn garbage_statement(spans: &[Span]) -> (statement: Statement)
    ensures
        statement.is_garbage(covering(spans@)),
{
    let mut expressions: Vec<Expression> = Vec::new();
    expressions.push(garbage(span(spans)));
    Statement::Pipeline(Pipeline { expressions })
}

/// The statement that consists of `expression`.
pub fn single_statement(expression: Expression) -> (statement: Statement)
    ensures
        statement.is_single(expression),
{
    let mut expressions: Vec<Expression> = Vec::new();
    expressions.push(expression);
    Statement::Pipeline(Pipeline { expressions })
}

/// The statement that consists of `call`, spanning `span`, with type `ty`.
pub fn call_statement(call: Call, span: Span, ty: Type) -> (statement: Statement)
    ensures
        statement.is_call(span, ty),
        statement.call() == call,
{
    single_statement(
        Expression { expr: Expr::Call(Box::new(call)), span, ty, custom_completion: None },
    )
}

} // verus!
