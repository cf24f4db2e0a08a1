//! The syntax tree as mathematical values: each node type of
//! [`crate::parsing::ast`] has a view type here, with sequences for vectors
//! and character sequences for strings. The grammar is stated over these.

use vstd::prelude::*;
use crate::parsing::ast::{
    EnumDef, Expr, FunDef, FunParam, Import, MatchCase, MatchPattern, Mod, PSym, ResultValue,
    Statement, StructDef, StructItem, StructSlot, TopLevel, Type, Use,
};

verus! {

/// The view of each element of `items`.
pub open spec fn views<T: View>(items: Seq<T>) -> Seq<T::V> {
    Seq::new(items.len(), |i: int| items[i]@)
}

pub struct PSymView {
    pub start: nat,
    pub end: nat,
    pub value: Seq<char>,
}

pub enum TypeView {
    Unit,
    Simple(PSymView),
    Index(PSymView, Seq<TypeView>),
    Fun { input: Seq<TypeView>, output: Box<TypeView> },
    Tuple(Seq<TypeView>),
    Namespace(Seq<PSymView>, Box<TypeView>),
    Infer,
}

pub struct UseView {
    pub namespace: Seq<PSymView>,
    pub imports: Seq<ImportView>,
}

pub enum ImportView {
    Everything,
    Item(PSymView),
}

pub struct FunParamView {
    pub name: PSymView,
    pub param_type: TypeView,
}

pub struct StructSlotView {
    pub name: PSymView,
    pub value: ExprView,
}

pub enum ResultValueView {
    Okay(Box<ExprView>),
    Error(Box<ExprView>),
}

#[allow(inconsistent_fields)]
pub enum ExprView {
    Number(PSymView),
    PString(PSymView),
    Bool(bool),
    Variable { namespace: Seq<PSymView>, name: PSymView },
    StatementLambda {
        params: Seq<FunParamView>,
        return_type: TypeView,
        definition: Seq<StatementView>,
    },
    ExprLambda { params: Seq<FunParamView>, return_type: TypeView, definition: Box<ExprView> },
    Call { func: Box<ExprView>, params: Seq<ExprView> },
    Try(Box<ExprView>),
    Dot { object: Box<ExprView>, slot: PSymView },
    Dash { object: Box<ExprView>, func: PSymView },
    StructCons { name: Option<PSymView>, slots: Seq<StructSlotView> },
    ListCons(Seq<ExprView>),
    ResultCons(ResultValueView),
}

#[allow(inconsistent_fields)]
pub enum StatementView {
    Expr(ExprView),
    Return(Option<ExprView>),
    Yield(Option<ExprView>),
    Let { name: PSymView, value_type: TypeView, expr: ExprView },
    Assign { target: ExprView, new_value: ExprView },
    Break,
    Continue,
    While { test: ExprView, statements: Seq<StatementView> },
    Foreach { var: PSymView, items: ExprView, statements: Seq<StatementView> },
    If { test: ExprView, statements: Seq<StatementView> },
    ElseIf { test: ExprView, statements: Seq<StatementView> },
    Else(Seq<StatementView>),
    Match { target: ExprView, cases: Seq<MatchCaseView> },
}

pub struct MatchCaseView {
    pub pattern: MatchPatternView,
    pub test: Option<ExprView>,
    pub statements: Seq<StatementView>,
}

pub enum MatchPatternView {
    Wildcard,
    Cons(PSymView, Seq<MatchPatternView>),
}

pub struct EnumDefView {
    pub name: PSymView,
    pub items: Seq<PSymView>,
}

pub struct StructItemView {
    pub name: PSymView,
    pub item_type: TypeView,
}

pub struct StructDefView {
    pub name: PSymView,
    pub type_params: Seq<PSymView>,
    pub items: Seq<StructItemView>,
}

pub struct FunDefView {
    pub name: PSymView,
    pub type_params: Seq<PSymView>,
    pub params: Seq<FunParamView>,
    pub return_type: TypeView,
    pub definition: Seq<StatementView>,
}

#[allow(inconsistent_fields)]
pub enum TopLevelView {
    FunDef { def: FunDefView, public: bool },
    EnumDef { def: EnumDefView, public: bool },
    StructDef { def: StructDefView, public: bool },
    Import(UseView),
}

pub struct ModView {
    pub fun_defs: Seq<FunDefView>,
    pub struct_defs: Seq<StructDefView>,
    pub enum_defs: Seq<EnumDefView>,
    pub fun_exports: Seq<Seq<char>>,
    pub struct_exports: Seq<Seq<char>>,
    pub enum_exports: Seq<Seq<char>>,
    pub uses: Seq<UseView>,
}

impl View for PSym {
    type V = PSymView;

    open spec fn view(&self) -> PSymView {
        PSymView { start: self.start as nat, end: self.end as nat, value: self.value@ }
    }
}

pub open spec fn type_view(t: Type) -> TypeView
    decreases t,
{
    match t {
        Type::Unit => TypeView::Unit,
        Type::Simple(name) => TypeView::Simple(name@),
        Type::Index(name, args) => TypeView::Index(name@, type_views(args@)),
        Type::Fun { input, output } => TypeView::Fun {
            input: type_views(input@),
            output: Box::new(type_view(*output)),
        },
        Type::Tuple(items) => TypeView::Tuple(type_views(items@)),
        Type::Namespace(path, inner) => TypeView::Namespace(
            views(path@),
            Box::new(type_view(*inner)),
        ),
        Type::Infer => TypeView::Infer,
    }
}

pub open spec fn type_views(ts: Seq<Type>) -> Seq<TypeView>
    decreases ts,
{
    Seq::new(ts.len(), |i: int| if 0 <= i < ts.len() { type_view(ts[i]) } else { TypeView::Unit })
}

impl View for Type {
    type V = TypeView;

    open spec fn view(&self) -> TypeView {
        type_view(*self)
    }
}

impl View for Import {
    type V = ImportView;

    open spec fn view(&self) -> ImportView {
        match self {
            Import::Everything => ImportView::Everything,
            Import::Item(name) => ImportView::Item(name@),
        }
    }
}

impl View for Use {
    type V = UseView;

    open spec fn view(&self) -> UseView {
        UseView { namespace: views(self.namespace@), imports: views(self.imports@) }
    }
}

impl View for FunParam {
    type V = FunParamView;

    open spec fn view(&self) -> FunParamView {
        FunParamView { name: self.name@, param_type: self.param_type@ }
    }
}

pub open spec fn expr_view(e: Expr) -> ExprView
    decreases e,
{
    match e {
        Expr::Number(n) => ExprView::Number(n@),
        Expr::PString(s) => ExprView::PString(s@),
        Expr::Bool(b) => ExprView::Bool(b),
        Expr::Variable { namespace, name } => ExprView::Variable {
            namespace: views(namespace@),
            name: name@,
        },
        Expr::StatementLambda { params, return_type, definition } => ExprView::StatementLambda {
            params: views(params@),
            return_type: return_type@,
            definition: statement_views(definition@),
        },
        Expr::ExprLambda { params, return_type, definition } => ExprView::ExprLambda {
            params: views(params@),
            return_type: return_type@,
            definition: Box::new(expr_view(*definition)),
        },
        Expr::Call { func, params } => ExprView::Call {
            func: Box::new(expr_view(*func)),
            params: expr_views(params@),
        },
        Expr::Try(inner) => ExprView::Try(Box::new(expr_view(*inner))),
        Expr::Dot { object, slot } => ExprView::Dot {
            object: Box::new(expr_view(*object)),
            slot: slot@,
        },
        Expr::Dash { object, func } => ExprView::Dash {
            object: Box::new(expr_view(*object)),
            func: func@,
        },
        Expr::StructCons { name, slots } => ExprView::StructCons {
            name: match name {
                Some(n) => Some(n@),
                None => None,
            },
            slots: slot_views(slots@),
        },
        Expr::ListCons(items) => ExprView::ListCons(expr_views(items@)),
        Expr::ResultCons(ResultValue::Okay(inner)) => ExprView::ResultCons(
            ResultValueView::Okay(Box::new(expr_view(*inner))),
        ),
        Expr::ResultCons(ResultValue::Error(inner)) => ExprView::ResultCons(
            ResultValueView::Error(Box::new(expr_view(*inner))),
        ),
    }
}

pub open spec fn expr_views(es: Seq<Expr>) -> Seq<ExprView>
    decreases es,
{
    Seq::new(
        es.len(),
        |i: int| if 0 <= i < es.len() { expr_view(es[i]) } else { ExprView::Bool(false) },
    )
}

pub open spec fn slot_views(slots: Seq<StructSlot>) -> Seq<StructSlotView>
    decreases slots,
{
    Seq::new(
        slots.len(),
        |i: int|
            if 0 <= i < slots.len() {
                StructSlotView { name: slots[i].name@, value: expr_view(slots[i].value) }
            } else {
                StructSlotView {
                    name: PSymView { start: 0, end: 0, value: Seq::empty() },
                    value: ExprView::Bool(false),
                }
            },
    )
}

pub open spec fn option_expr_view(e: Option<Expr>) -> Option<ExprView>
    decreases e,
{
    match e {
        Some(inner) => Some(expr_view(inner)),
        None => None,
    }
}

pub open spec fn statement_view(s: Statement) -> StatementView
    decreases s,
{
    match s {
        Statement::Expr(e) => StatementView::Expr(expr_view(e)),
        Statement::Return(e) => StatementView::Return(option_expr_view(e)),
        Statement::Yield(e) => StatementView::Yield(option_expr_view(e)),
        Statement::Let { name, value_type, expr } => StatementView::Let {
            name: name@,
            value_type: value_type@,
            expr: expr_view(expr),
        },
        Statement::Assign { target, new_value } => StatementView::Assign {
            target: expr_view(target),
            new_value: expr_view(new_value),
        },
        Statement::Break => StatementView::Break,
        Statement::Continue => StatementView::Continue,
        Statement::While { test, statements } => StatementView::While {
            test: expr_view(test),
            statements: statement_views(statements@),
        },
        Statement::Foreach { var, items, statements } => StatementView::Foreach {
            var: var@,
            items: expr_view(items),
            statements: statement_views(statements@),
        },
        Statement::If { test, statements } => StatementView::If {
            test: expr_view(test),
            statements: statement_views(statements@),
        },
        Statement::ElseIf { test, statements } => StatementView::ElseIf {
            test: expr_view(test),
            statements: statement_views(statements@),
        },
        Statement::Else(statements) => StatementView::Else(statement_views(statements@)),
        Statement::Match { target, cases } => StatementView::Match {
            target: expr_view(target),
            cases: case_views(cases@),
        },
    }
}

pub open spec fn statement_views(ss: Seq<Statement>) -> Seq<StatementView>
    decreases ss,
{
    Seq::new(
        ss.len(),
        |i: int| if 0 <= i < ss.len() { statement_view(ss[i]) } else { StatementView::Break },
    )
}

pub open spec fn case_views(cases: Seq<MatchCase>) -> Seq<MatchCaseView>
    decreases cases,
{
    Seq::new(
        cases.len(),
        |i: int|
            if 0 <= i < cases.len() {
                MatchCaseView {
                    pattern: cases[i].pattern@,
                    test: option_expr_view(cases[i].test),
                    statements: statement_views(cases[i].statements@),
                }
            } else {
                MatchCaseView {
                    pattern: MatchPatternView::Wildcard,
                    test: None,
                    statements: Seq::empty(),
                }
            },
    )
}

pub open spec fn pattern_view(p: MatchPattern) -> MatchPatternView
    decreases p,
{
    match p {
        MatchPattern::Wildcard => MatchPatternView::Wildcard,
        MatchPattern::Cons(name, fields) => MatchPatternView::Cons(name@, pattern_views(fields@)),
    }
}

pub open spec fn pattern_views(ps: Seq<MatchPattern>) -> Seq<MatchPatternView>
    decreases ps,
{
    Seq::new(
        ps.len(),
        |i: int| if 0 <= i < ps.len() { pattern_view(ps[i]) } else { MatchPatternView::Wildcard },
    )
}

impl View for Expr {
    type V = ExprView;

    open spec fn view(&self) -> ExprView {
        expr_view(*self)
    }
}

impl View for StructSlot {
    type V = StructSlotView;

    open spec fn view(&self) -> StructSlotView {
        StructSlotView { name: self.name@, value: self.value@ }
    }
}

impl View for Statement {
    type V = StatementView;

    open spec fn view(&self) -> StatementView {
        statement_view(*self)
    }
}

impl View for MatchPattern {
    type V = MatchPatternView;

    open spec fn view(&self) -> MatchPatternView {
        pattern_view(*self)
    }
}

impl View for MatchCase {
    type V = MatchCaseView;

    open spec fn view(&self) -> MatchCaseView {
        MatchCaseView {
            pattern: self.pattern@,
            test: option_expr_view(self.test),
            statements: statement_views(self.statements@),
        }
    }
}

impl View for EnumDef {
    type V = EnumDefView;

    open spec fn view(&self) -> EnumDefView {
        EnumDefView { name: self.name@, items: views(self.items@) }
    }
}

impl View for StructItem {
    type V = StructItemView;

    open spec fn view(&self) -> StructItemView {
        StructItemView { name: self.name@, item_type: self.item_type@ }
    }
}

impl View for StructDef {
    type V = StructDefView;

    open spec fn view(&self) -> StructDefView {
        StructDefView {
            name: self.name@,
            type_params: views(self.type_params@),
            items: views(self.items@),
        }
    }
}

impl View for FunDef {
    type V = FunDefView;

    open spec fn view(&self) -> FunDefView {
        FunDefView {
            name: self.name@,
            type_params: views(self.type_params@),
            params: views(self.params@),
            return_type: self.return_type@,
            definition: views(self.definition@),
        }
    }
}

impl View for TopLevel {
    type V = TopLevelView;

    open spec fn view(&self) -> TopLevelView {
        match self {
            TopLevel::FunDef { def, public } => TopLevelView::FunDef { def: def@, public: *public },
            TopLevel::EnumDef { def, public } => TopLevelView::EnumDef {
                def: def@,
                public: *public,
            },
            TopLevel::StructDef { def, public } => TopLevelView::StructDef {
                def: def@,
                public: *public,
            },
            TopLevel::Import(u) => TopLevelView::Import(u@),
        }
    }
}

impl View for Mod {
    type V = ModView;

    open spec fn view(&self) -> ModView {
        ModView {
            fun_defs: views(self.fun_defs@),
            struct_defs: views(self.struct_defs@),
            enum_defs: views(self.enum_defs@),
            fun_exports: views(self.fun_exports@),
            struct_exports: views(self.struct_exports@),
            enum_exports: views(self.enum_exports@),
            uses: views(self.uses@),
        }
    }
}

/// The two ways to view a sequence of types give the same sequence.
pub broadcast proof fn lemma_type_views(ts: Seq<Type>)
    ensures
        #[trigger] type_views(ts) == views(ts),
{
    assert(type_views(ts) =~= views(ts));
}

/// The two ways to view a sequence of expressions give the same sequence.
pub broadcast proof fn lemma_expr_views(es: Seq<Expr>)
    ensures
        #[trigger] expr_views(es) == views(es),
{
    assert(expr_views(es) =~= views(es));
}

/// The two ways to view a sequence of slots give the same sequence.
pub broadcast proof fn lemma_slot_views(slots: Seq<StructSlot>)
    ensures
        #[trigger] slot_views(slots) == views(slots),
{
    assert(slot_views(slots) =~= views(slots));
}

/// The two ways to view a sequence of statements give the same sequence.
pub broadcast proof fn lemma_statement_views(ss: Seq<Statement>)
    ensures
        #[trigger] statement_views(ss) == views(ss),
{
    assert(statement_views(ss) =~= views(ss));
}

/// The two ways to view a sequence of cases give the same sequence.
pub broadcast proof fn lemma_case_views(cases: Seq<MatchCase>)
    ensures
        #[trigger] case_views(cases) == views(cases),
{
    assert(case_views(cases) =~= views(cases));
}

/// The two ways to view a sequence of patterns give the same sequence.
pub broadcast proof fn lemma_pattern_views(ps: Seq<MatchPattern>)
    ensures
        #[trigger] pattern_views(ps) == views(ps),
{
    assert(pattern_views(ps) =~= views(ps));
}

pub broadcast group group_views {
    lemma_type_views,
    lemma_expr_views,
    lemma_slot_views,
    lemma_statement_views,
    lemma_case_views,
    lemma_pattern_views,
}

} // verus!
