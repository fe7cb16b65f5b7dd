//! Instrumentation of program items: a pass over the items of a program
//! that puts the body of every callable into a CPU scope named after the
//! callable, and changes nothing else.
//!
//! The pass works on a small model of a program. A block is either a block
//! of the program as written, which the pass never looks into, or a block
//! that the pass has wrapped. The wrapped block runs its body inside a
//! guarded scope, so the scope is left however the body ends.

use vstd::prelude::*;
use vstd::utf8::encode_utf8;
use crate::call::{Call, TokenKind};
use crate::color::Color;
use crate::hierarchy::{registration, token_request, Group};
use crate::name::{first_nul, nul_free, NameError};
use crate::profiler::Profiler;

verus! {

/// Where a wrapped block records its time: the category, the group with
/// its color, and the scope with its color.
#[derive(Debug, PartialEq, Eq)]
pub struct Site {
    pub category: String,
    pub group: String,
    pub group_color: Color,
    pub scope: String,
    pub scope_color: Color,
}

/// A site with its names as text.
pub ghost struct SiteView {
    pub category: Seq<char>,
    pub group: Seq<char>,
    pub group_color: Color,
    pub scope: Seq<char>,
    pub scope_color: Color,
}

impl View for Site {
    type V = SiteView;

    open spec fn view(&self) -> SiteView {
        SiteView {
            category: self.category@,
            group: self.group@,
            group_color: self.group_color,
            scope: self.scope@,
            scope_color: self.scope_color,
        }
    }
}

/// The site of the callable `symbol`: the scope `symbol` of the group
/// "trace" in the category "profile".
pub open spec fn site_of(symbol: Seq<char>) -> SiteView {
    SiteView {
        category: "profile"@,
        group: "trace"@,
        group_color: Color(40, 0, 250),
        scope: symbol,
        scope_color: Color(250, 0, 100),
    }
}

impl Site {
    /// The site of the callable `symbol`.
    pub fn of(symbol: &str) -> (site: Site)
        ensures
            site@ == site_of(symbol@),
    {
        Site {
            category: "profile".to_owned(),
            group: "trace".to_owned(),
            group_color: Color(40, 0, 250),
            scope: symbol.to_owned(),
            scope_color: Color(250, 0, 100),
        }
    }

    /// What a wrapped block does before it enters its scope: it defines
    /// the category and the group of the site, which registers the group,
    /// and asks for the token of the scope. The result is the group, the
    /// call that registers it and the call that asks for the token. A name
    /// with a NUL byte is rejected: the category's first, then the
    /// group's, then the scope's.
    pub fn prepare<'a>(&self, profiler: &'a Profiler) -> (result: Result<
        (Group<'a>, Call, Call),
        NameError,
    >)
        ensures
            ({
                let category = encode_utf8(self.category@);
                let group = encode_utf8(self.group@);
                let scope = encode_utf8(self.scope@);
                match result {
                    Ok((defined, register, request)) => {
                        &&& nul_free(category)
                        &&& nul_free(group)
                        &&& nul_free(scope)
                        &&& defined.name()@ == group
                        &&& defined.category()@ == category
                        &&& register@ == registration(group, category, self.group_color)
                        &&& request@ == token_request(
                            group,
                            scope,
                            self.scope_color,
                            TokenKind::Cpu,
                        )
                    },
                    Err(error) => if !nul_free(category) {
                        first_nul(category, error.position as int)
                    } else if !nul_free(group) {
                        first_nul(group, error.position as int)
                    } else {
                        first_nul(scope, error.position as int)
                    },
                }
            }),
    {
        let category = match profiler.define_category(self.category.as_str()) {
            Ok(category) => category,
            Err(error) => {
                return Err(error);
            },
        };
        let (group, register) = match category.define_group(
            self.group.as_str(),
            self.group_color,
        ) {
            Ok(defined) => defined,
            Err(error) => {
                return Err(error);
            },
        };
        match group.get_cpu_scope_call(self.scope.as_str(), self.scope_color) {
            Ok(request) => Ok((group, register, request)),
            Err(error) => Err(error),
        }
    }
}

/// A block of code.
#[derive(Debug, PartialEq, Eq)]
pub enum Block {
    /// A block of the program as written, by its text.
    Source(String),
    /// A block that runs `body` inside the scope of `site`: the scope is
    /// entered before the body and left after it, however the body ends,
    /// and the value of the body is the value of the block.
    Scoped { site: Site, body: Box<Block> },
}

/// A block with its names and text as text.
pub ghost enum BlockView {
    Source(Seq<char>),
    Scoped { site: SiteView, body: Box<BlockView> },
}

impl Block {
    /// The view of the block.
    pub open spec fn model(self) -> BlockView
        decreases self,
    {
        match self {
            Block::Source(text) => BlockView::Source(text@),
            Block::Scoped { site, body } => BlockView::Scoped {
                site: site@,
                body: Box::new((*body).model()),
            },
        }
    }
}

impl View for Block {
    type V = BlockView;

    open spec fn view(&self) -> BlockView {
        self.model()
    }
}

/// An item of a program, by its name and what kind of item it is.
#[derive(Debug, PartialEq, Eq)]
pub struct Item {
    pub name: String,
    pub kind: ItemKind,
}

/// What the pass tells apart in items.
#[derive(Debug, PartialEq, Eq)]
pub enum ItemKind {
    /// A function or a method. One that is only declared, as in a trait,
    /// has no body.
    Callable { body: Option<Block> },
    /// An item that holds items: a module, a trait, an implementation.
    Nested { items: Vec<Item> },
    /// A macro call that stands for items. The pass does not expand it.
    Macro,
    /// Any other item. It holds no code to time.
    Plain,
}

/// An item with its names and text as text.
pub ghost struct ItemView {
    pub name: Seq<char>,
    pub kind: ItemKindView,
}

/// A kind of item with its names and text as text.
pub ghost enum ItemKindView {
    Callable { body: Option<BlockView> },
    Nested { items: Seq<ItemView> },
    Macro,
    Plain,
}

impl Item {
    /// The view of the item.
    pub open spec fn model(self) -> ItemView
        decreases self,
    {
        ItemView {
            name: self.name@,
            kind: match self.kind {
                ItemKind::Callable { body: Some(body) } => ItemKindView::Callable {
                    body: Some(body@),
                },
                ItemKind::Callable { body: None } => ItemKindView::Callable { body: None },
                ItemKind::Nested { items } => ItemKindView::Nested {
                    items: Seq::new(
                        items@.len(),
                        |i: int|
                            if 0 <= i < items@.len() {
                                items@[i].model()
                            } else {
                                arbitrary()
                            },
                    ),
                },
                ItemKind::Macro => ItemKindView::Macro,
                ItemKind::Plain => ItemKindView::Plain,
            },
        }
    }
}

impl View for Item {
    type V = ItemView;

    open spec fn view(&self) -> ItemView {
        self.model()
    }
}

/// What the instrumentation mark stands on: an item, an item of a trait or
/// an item of an implementation.
#[derive(Debug, PartialEq, Eq)]
pub enum Annotatable {
    Item(Item),
    TraitItem(Item),
    ImplItem(Item),
}

/// A marked item with its names and text as text.
pub ghost enum AnnotatableView {
    Item(ItemView),
    TraitItem(ItemView),
    ImplItem(ItemView),
}

impl View for Annotatable {
    type V = AnnotatableView;

    open spec fn view(&self) -> AnnotatableView {
        match self {
            Annotatable::Item(item) => AnnotatableView::Item(item@),
            Annotatable::TraitItem(item) => AnnotatableView::TraitItem(item@),
            Annotatable::ImplItem(item) => AnnotatableView::ImplItem(item@),
        }
    }
}

/// `block` inside the scope of the callable `symbol`.
pub open spec fn wrapped(symbol: Seq<char>, block: BlockView) -> BlockView {
    BlockView::Scoped { site: site_of(symbol), body: Box::new(block) }
}

/// The item after the pass. The body of a callable is wrapped once, in the
/// scope of the callable's own name. The items inside an item are passed
/// one by one, each for itself. A callable without a body, a macro call
/// and an item without code stay as they are, and no name changes.
pub open spec fn instrumented(item: ItemView) -> ItemView
    decreases item,
{
    ItemView {
        name: item.name,
        kind: match item.kind {
            ItemKindView::Callable { body: Some(body) } => ItemKindView::Callable {
                body: Some(wrapped(item.name, body)),
            },
            ItemKindView::Nested { items } => ItemKindView::Nested {
                items: Seq::new(
                    items.len(),
                    |i: int|
                        if 0 <= i < items.len() {
                            instrumented(items[i])
                        } else {
                            arbitrary()
                        },
                ),
            },
            other => other,
        },
    }
}

/// The marked item after the pass: the same kind of mark on the passed
/// item.
pub open spec fn expanded(item: AnnotatableView) -> AnnotatableView {
    match item {
        AnnotatableView::Item(item) => AnnotatableView::Item(instrumented(item)),
        AnnotatableView::TraitItem(item) => AnnotatableView::TraitItem(instrumented(item)),
        AnnotatableView::ImplItem(item) => AnnotatableView::ImplItem(instrumented(item)),
    }
}

/// The block without the scopes around it: the block of the program that
/// it wraps.
pub open spec fn bare(block: BlockView) -> BlockView
    decreases block,
{
    match block {
        BlockView::Source(_) => block,
        BlockView::Scoped { body, .. } => bare(*body),
    }
}

/// The item without any scope in it.
pub open spec fn stripped(item: ItemView) -> ItemView
    decreases item,
{
    ItemView {
        name: item.name,
        kind: match item.kind {
            ItemKindView::Callable { body: Some(body) } => ItemKindView::Callable {
                body: Some(bare(body)),
            },
            ItemKindView::Nested { items } => ItemKindView::Nested {
                items: Seq::new(
                    items.len(),
                    |i: int|
                        if 0 <= i < items.len() {
                            stripped(items[i])
                        } else {
                            arbitrary()
                        },
                ),
            },
            other => other,
        },
    }
}

/// How many scopes a block is wrapped in.
pub open spec fn depth(block: BlockView) -> nat
    decreases block,
{
    match block {
        BlockView::Source(_) => 0,
        BlockView::Scoped { body, .. } => 1 + depth(*body),
    }
}

/// The pass adds scopes and nothing else: without its scopes, the passed
/// item is the item that was given, without its scopes.
pub proof fn lemma_pass_keeps_program(item: ItemView)
    ensures
        stripped(instrumented(item)) == stripped(item),
        instrumented(item).name == item.name,
    decreases item,
{
    match item.kind {
        ItemKindView::Nested { items } => {
            let passed = instrumented(item).kind->Nested_items;
            assert forall|i: int| 0 <= i < items.len() implies stripped(passed[i]) == stripped(
                items[i],
            ) by {
                lemma_pass_keeps_program(items[i]);
            }
            assert(stripped(instrumented(item)).kind->Nested_items =~= stripped(
                item,
            ).kind->Nested_items);
        },
        _ => {},
    }
}

/// What one sees of a scope while a block runs.
pub ghost enum Event {
    /// The scope of that name was entered.
    Enter(Seq<char>),
    /// The scope of that name was left.
    Leave(Seq<char>),
}

/// What running a block comes to: how it ended, with a value, an error or
/// an early result, and the scope events on the way, in order.
pub ghost struct Run<V> {
    pub outcome: V,
    pub events: Seq<Event>,
}

/// What running `block` comes to, where `source` says what running each
/// block of the program comes to. A wrapped block ends as its body ends,
/// and shows one enter before the events of its body and one leave after
/// them.
pub open spec fn evaluate<V>(block: BlockView, source: spec_fn(Seq<char>) -> Run<V>) -> Run<V>
    decreases block,
{
    match block {
        BlockView::Source(text) => source(text),
        BlockView::Scoped { site, body } => {
            let inner = evaluate(*body, source);
            Run {
                outcome: inner.outcome,
                events: seq![Event::Enter(site.scope)] + inner.events + seq![
                    Event::Leave(site.scope),
                ],
            }
        },
    }
}

/// The pass keeps what a callable does and brackets it with one enter and
/// one leave. Whatever the blocks of the program do, the passed body of
/// the callable `item` ends as the given body ends, with the same value,
/// error or early result, and its events are one enter of the scope named
/// after the callable, the events of the given body, and one leave of that
/// scope.
pub proof fn lemma_pass_brackets_body<V>(item: ItemView, source: spec_fn(Seq<char>) -> Run<V>)
    requires
        item.kind is Callable,
        item.kind->Callable_body is Some,
    ensures
        instrumented(item).kind is Callable,
        instrumented(item).kind->Callable_body is Some,
        ({
            let before = evaluate(item.kind->Callable_body->Some_0, source);
            let after = evaluate(instrumented(item).kind->Callable_body->Some_0, source);
            &&& after.outcome == before.outcome
            &&& after.events == seq![Event::Enter(item.name)] + before.events + seq![
                Event::Leave(item.name),
            ]
            &&& depth(instrumented(item).kind->Callable_body->Some_0) == depth(
                item.kind->Callable_body->Some_0,
            ) + 1
        }),
{
}

/// The pass over the blocks of one callable.
#[derive(Debug)]
pub struct ScopeFolder {
    symbol: String,
}

impl ScopeFolder {
    /// The name of the callable whose blocks are passed.
    pub closed spec fn spec_symbol(&self) -> &String {
        &self.symbol
    }

    /// The name of the callable whose blocks are passed.
    #[verifier::when_used_as_spec(spec_symbol)]
    pub fn symbol(&self) -> (symbol: &String)
        ensures
            symbol == self.spec_symbol(),
    {
        &self.symbol
    }

    /// The pass over the blocks of the callable `symbol`.
    pub fn new(symbol: &str) -> (folder: ScopeFolder)
        ensures
            folder.symbol()@ == symbol@,
    {
        ScopeFolder { symbol: symbol.to_owned() }
    }

    /// Wraps `block` in the scope of the callable. The block itself is
    /// taken as it is.
    pub fn fold_block(&self, block: Block) -> (scoped: Block)
        ensures
            scoped@ == wrapped(self.symbol()@, block@),
    {
        Block::Scoped { site: Site::of(self.symbol.as_str()), body: Box::new(block) }
    }

    /// Passes one item: wraps the body of a callable in the scope of the
    /// callable's name, passes the items inside an item each for itself,
    /// and leaves everything else as it is.
    pub fn fold_item_simple(item: Item) -> (folded: Item)
        ensures
            folded@ == instrumented(item@),
        decreases item,
    {
        let ghost whole = item;
        let Item { name, kind } = item;
        match kind {
            ItemKind::Callable { body: Some(body) } => {
                let folder = ScopeFolder::new(name.as_str());
                let body = folder.fold_block(body);
                Item { name, kind: ItemKind::Callable { body: Some(body) } }
            },
            ItemKind::Nested { items } => {
                let ghost given = items@;
                let mut folded: Vec<Item> = Vec::new();
                for child in rest: items
                    invariant
                        rest.seq() == given,
                        whole == item,
                        folded@.len() == rest.index(),
                        forall|i: int|
                            0 <= i < given.len() ==> decreases_to!(whole => #[trigger] given[i]),
                        forall|i: int|
                            0 <= i < folded@.len() ==> (#[trigger] folded@[i])@ == instrumented(
                                given[i]@,
                            ),
                {
                    let passed = ScopeFolder::fold_item_simple(child);
                    folded.push(passed);
                }
                let folded = Item { name, kind: ItemKind::Nested { items: folded } };
                assert(folded@.kind->Nested_items =~= instrumented(whole@).kind->Nested_items);
                folded
            },
            other => Item { name, kind: other },
        }
    }
}

/// Passes the item that the instrumentation mark stands on.
pub fn expand_scope_cpu(item: Annotatable) -> (passed: Annotatable)
    ensures
        passed@ == expanded(item@),
{
    match item {
        Annotatable::Item(item) => Annotatable::Item(ScopeFolder::fold_item_simple(item)),
        Annotatable::TraitItem(item) => Annotatable::TraitItem(
            ScopeFolder::fold_item_simple(item),
        ),
        Annotatable::ImplItem(item) => Annotatable::ImplItem(ScopeFolder::fold_item_simple(item)),
    }
}

} // verus!
