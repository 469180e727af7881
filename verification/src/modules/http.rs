use vstd::prelude::*;

verus! {

/// How one HTTP module is built: the order in which its filters run
/// (larger orders run first) and the type of the module it creates.
///
/// No two modules of one [HttpModules] may create modules of the same type.
#[derive(Clone, Copy, PartialEq, Eq, Structural, Debug)]
pub struct ModuleBuilder {
    /// Filters of modules with a larger order run first.
    pub order: i16,
    /// Identifies the type of the module that this builder creates.
    pub module_type: u64,
}

impl ModuleBuilder {
    /// A builder with the default order, 0.
    pub fn new(module_type: u64) -> (builder: Self)
        ensures
            builder.order == 0,
            builder.module_type == module_type,
    {
        ModuleBuilder { order: 0, module_type }
    }

    /// A builder whose filters run at the given order.
    pub fn with_order(module_type: u64, order: i16) -> (builder: Self)
        ensures
            builder.order == order,
            builder.module_type == module_type,
    {
        ModuleBuilder { order, module_type }
    }
}

/// Every module comes before all modules of smaller order.
pub open spec fn sorted_by_order(s: Seq<ModuleBuilder>) -> bool {
    forall|i: int, j: int| 0 <= i < j < s.len() ==> s[i].order >= s[j].order
}

/// No two builders create modules of the same type.
pub open spec fn distinct_types(s: Seq<ModuleBuilder>) -> bool {
    forall|i: int, j: int|
        0 <= i < s.len() && 0 <= j < s.len() && i != j ==> s[i].module_type != s[j].module_type
}

/// No builder has the order `i16::MIN`, whose negation overflows.
pub open spec fn orders_negatable(s: Seq<ModuleBuilder>) -> bool {
    forall|i: int| 0 <= i < s.len() ==> s[i].order != i16::MIN
}

/// Where a module of the given order goes in a list sorted largest order
/// first: after every module whose order is at least as large.
pub open spec fn insertion_point(s: Seq<ModuleBuilder>, order: i16) -> nat
    decreases s.len(),
{
    if s.len() == 0 || s[0].order < order {
        0
    } else {
        1 + insertion_point(s.drop_first(), order)
    }
}

/// The list `s` with `b` added, sorted largest order first, modules of equal
/// order in the order they were added.
pub open spec fn insert_by_order(s: Seq<ModuleBuilder>, b: ModuleBuilder) -> Seq<ModuleBuilder> {
    s.insert(insertion_point(s, b.order) as int, b)
}

/// The module types in the order in which their filters run.
pub open spec fn module_types(s: Seq<ModuleBuilder>) -> Seq<u64> {
    s.map_values(|m: ModuleBuilder| m.module_type)
}

/// The modules before the insertion point have an order at least `order`;
/// in a sorted list those after it have a smaller order.
pub proof fn lemma_insertion_point(s: Seq<ModuleBuilder>, order: i16)
    ensures
        insertion_point(s, order) <= s.len(),
        forall|i: int| 0 <= i < insertion_point(s, order) ==> s[i].order >= order,
        insertion_point(s, order) < s.len() ==> s[insertion_point(s, order) as int].order < order,
        sorted_by_order(s) ==> forall|i: int|
            insertion_point(s, order) <= i < s.len() ==> s[i].order < order,
    decreases s.len(),
{
    if s.len() > 0 && s[0].order >= order {
        lemma_insertion_point(s.drop_first(), order);
        assert forall|i: int| 0 <= i < insertion_point(s, order) implies s[i].order >= order by {
            if i > 0 {
                assert(s[i] == s.drop_first()[i - 1]);
            }
        }
        if sorted_by_order(s) {
            assert(sorted_by_order(s.drop_first()));
            assert forall|i: int| insertion_point(s, order) <= i < s.len() implies s[i].order
                < order by {
                assert(s[i] == s.drop_first()[i - 1]);
            }
        }
        if insertion_point(s, order) < s.len() {
            assert(s[insertion_point(s, order) as int] == s.drop_first()[insertion_point(
                s.drop_first(),
                order,
            ) as int]);
        }
    }
}

/// An index `k` with every module before it of order at least `order`, and
/// the module at it, if any, of smaller order, is the insertion point.
proof fn lemma_insertion_point_unique(s: Seq<ModuleBuilder>, order: i16, k: int)
    requires
        0 <= k <= s.len(),
        forall|i: int| 0 <= i < k ==> s[i].order >= order,
        k < s.len() ==> s[k].order < order,
    ensures
        insertion_point(s, order) == k,
    decreases s.len(),
{
    if k > 0 {
        assert forall|i: int| 0 <= i < k - 1 implies s.drop_first()[i].order >= order by {
            assert(s.drop_first()[i] == s[i + 1]);
        }
        if k - 1 < s.len() - 1 {
            assert(s.drop_first()[k - 1] == s[k]);
        }
        lemma_insertion_point_unique(s.drop_first(), order, k - 1);
    }
}

/// Adding a module keeps the list sorted largest order first; the new
/// module follows every module of equal or larger order and precedes every
/// module of smaller order, and the other modules keep their relative order.
pub proof fn law_insert_by_order_sorted(s: Seq<ModuleBuilder>, b: ModuleBuilder)
    requires
        sorted_by_order(s),
    ensures
        sorted_by_order(insert_by_order(s, b)),
        insert_by_order(s, b).len() == s.len() + 1,
        insert_by_order(s, b).to_multiset() =~= s.to_multiset().insert(b),
        ({
            let k = insertion_point(s, b.order) as int;
            &&& insert_by_order(s, b)[k] == b
            &&& insert_by_order(s, b).remove(k) =~= s
            &&& forall|i: int| 0 <= i < k ==> s[i].order >= b.order
            &&& forall|i: int| k <= i < s.len() ==> s[i].order < b.order
        }),
{
    let k = insertion_point(s, b.order) as int;
    lemma_insertion_point(s, b.order);
    s.insert_ensures(k, b);
    let r = insert_by_order(s, b);
    assert forall|i: int, j: int| 0 <= i < j < r.len() implies r[i].order >= r[j].order by {
        if j < k {
        } else if j == k {
        } else if i < k {
            assert(r[j] == s[j - 1]);
        } else if i == k {
            assert(r[j] == s[j - 1]);
        } else {
            assert(r[i] == s[i - 1]);
            assert(r[j] == s[j - 1]);
        }
    }
    assert(r.remove(k) =~= s) by {
        r.remove_ensures(k);
        assert forall|i: int| 0 <= i < s.len() implies r.remove(k)[i] == s[i] by {
            if i >= k {
                assert(r[i + 1] == s[i]);
            }
        }
    }
    broadcast use vstd::seq_lib::group_to_multiset_ensures;
    r.remove_ensures(k);
    assert(r.remove(k).to_multiset() =~= r.to_multiset().remove(r[k]));
    assert(r.to_multiset().count(b) > 0);
}

/// The modules of an HTTP server, kept sorted largest order first.
///
/// Once the module contexts have been built, no module can be added, and the
/// module types are known to be distinct.
pub struct HttpModules {
    modules: Vec<ModuleBuilder>,
    built: bool,
}

impl HttpModules {
    #[verifier::type_invariant]
    spec fn inv(self) -> bool {
        &&& sorted_by_order(self.modules@)
        &&& self.modules@.len() > 1 ==> orders_negatable(self.modules@)
        &&& self.built ==> distinct_types(self.modules@)
    }

    /// The module builders, largest order first.
    pub closed spec fn modules(self) -> Seq<ModuleBuilder> {
        self.modules@
    }

    /// Whether the module contexts have been built, after which no module can be added.
    pub closed spec fn is_built(self) -> bool {
        self.built
    }

    /// An empty set of modules.
    pub fn new() -> (modules: Self)
        ensures
            modules.modules() == Seq::<ModuleBuilder>::empty(),
            !modules.is_built(),
    {
        HttpModules { modules: Vec::new(), built: false }
    }

    /// The number of modules.
    pub fn len(&self) -> (n: usize)
        ensures
            n == self.modules().len(),
    {
        self.modules.len()
    }

    /// Whether the module contexts have been built.
    pub fn built(&self) -> (b: bool)
        ensures
            b == self.is_built(),
    {
        self.built
    }

    /// Whether `builder` can be added: the contexts are not built yet and,
    /// once there are two modules or more, no order is `i16::MIN` (the sort
    /// negates every order).
    pub fn can_add(&self, builder: &ModuleBuilder) -> (ok: bool)
        ensures
            ok == (!self.is_built() && (self.modules().len() > 0 ==> orders_negatable(
                self.modules().push(*builder),
            ))),
    {
        if self.built {
            return false;
        }
        if self.modules.len() == 0 {
            return true;
        }
        let mut i: usize = 0;
        while i < self.modules.len()
            invariant
                i <= self.modules@.len(),
                forall|j: int| 0 <= j < i ==> self.modules@[j].order != i16::MIN,
            decreases self.modules@.len() - i,
        {
            if self.modules[i].order == i16::MIN {
                assert(self.modules@.push(*builder)[i as int] == self.modules@[i as int]);
                return false;
            }
            i = i + 1;
        }
        if builder.order == i16::MIN {
            assert(self.modules@.push(*builder)[self.modules@.len() as int] == *builder);
            return false;
        }
        assert(orders_negatable(self.modules@.push(*builder)));
        true
    }

    /// Add a module builder. Modules are kept sorted largest order first;
    /// the new one runs after every module of equal or larger order.
    pub fn add_module(&mut self, builder: ModuleBuilder)
        requires
            !old(self).is_built(),
            old(self).modules().len() > 0 ==> orders_negatable(old(self).modules().push(builder)),
        ensures
            final(self).modules() == insert_by_order(old(self).modules(), builder),
            sorted_by_order(final(self).modules()),
            !final(self).is_built(),
    {
        proof {
            use_type_invariant(&*self);
        }
        let mut modules: Vec<ModuleBuilder> = Vec::new();
        std::mem::swap(&mut modules, &mut self.modules);
        let ghost s = modules@;
        let mut i: usize = 0;
        while i < modules.len() && modules[i].order >= builder.order
            invariant
                i <= modules@.len(),
                modules@ == s,
                forall|j: int| 0 <= j < i ==> s[j].order >= builder.order,
            decreases modules@.len() - i,
        {
            i = i + 1;
        }
        proof {
            lemma_insertion_point_unique(s, builder.order, i as int);
            law_insert_by_order_sorted(s, builder);
        }
        modules.insert(i, builder);
        proof {
            let r = modules@;
            if r.len() > 1 {
                assert forall|j: int| 0 <= j < r.len() implies r[j].order != i16::MIN by {
                    s.insert_ensures(i as int, builder);
                    if j < i {
                        assert(s.push(builder)[j] == s[j]);
                    } else if j > i {
                        assert(s.push(builder)[j - 1] == s[j - 1]);
                    } else {
                        assert(s.push(builder)[s.len() as int] == builder);
                    }
                }
            }
        }
        self.modules = modules;
    }

    /// Whether the module types are distinct, which building the contexts
    /// for the first time demands.
    pub fn types_distinct(&self) -> (ok: bool)
        ensures
            ok == distinct_types(self.modules()),
    {
        let n = self.modules.len();
        let mut i: usize = 0;
        while i < n
            invariant
                n == self.modules@.len(),
                i <= n,
                forall|a: int, b: int|
                    0 <= a < i && 0 <= b < n && a != b ==> self.modules@[a].module_type
                        != self.modules@[b].module_type,
            decreases n - i,
        {
            let mut j: usize = 0;
            while j < n
                invariant
                    n == self.modules@.len(),
                    i < n,
                    j <= n,
                    forall|a: int, b: int|
                        0 <= a < i && 0 <= b < n && a != b ==> self.modules@[a].module_type
                            != self.modules@[b].module_type,
                    forall|b: int|
                        0 <= b < j && b != i ==> self.modules@[i as int].module_type
                            != self.modules@[b].module_type,
                decreases n - j,
            {
                if j != i && self.modules[i].module_type == self.modules[j].module_type {
                    return false;
                }
                j = j + 1;
            }
            i = i + 1;
        }
        true
    }

    /// Build the per-request contexts of all modules, in the order in which
    /// their filters run. After this no module can be added.
    pub fn build_ctx(&mut self) -> (ctx: HttpModuleCtx)
        requires
            !old(self).is_built() ==> distinct_types(old(self).modules()),
        ensures
            final(self).modules() == old(self).modules(),
            final(self).is_built(),
            ctx.module_types() == module_types(old(self).modules()),
    {
        proof {
            use_type_invariant(&*self);
        }
        let mut types: Vec<u64> = Vec::new();
        let mut i: usize = 0;
        while i < self.modules.len()
            invariant
                i <= self.modules@.len(),
                types@ =~= module_types(self.modules@.take(i as int)),
            decreases self.modules@.len() - i,
        {
            types.push(self.modules[i].module_type);
            i = i + 1;
            assert(types@ =~= module_types(self.modules@.take(i as int)));
        }
        assert(self.modules@.take(i as int) =~= self.modules@);
        self.built = true;
        HttpModuleCtx { modules: types }
    }
}

/// The per-request contexts of the modules of a server, in the order in
/// which their filters run.
#[derive(Debug, PartialEq, Eq)]
pub struct HttpModuleCtx {
    modules: Vec<u64>,
}

impl HttpModuleCtx {
    /// The types of the modules, in the order in which their filters run.
    pub closed spec fn module_types(self) -> Seq<u64> {
        self.modules@
    }

    /// The number of modules.
    pub fn len(&self) -> (n: usize)
        ensures
            n == self.module_types().len(),
    {
        self.modules.len()
    }

    /// The types of the modules, in the order in which their filters run.
    pub fn into_module_types(self) -> (types: Vec<u64>)
        ensures
            types@ == self.module_types(),
    {
        self.modules
    }

    /// The type of the module whose filter runs at position `i`.
    pub fn module_type(&self, i: usize) -> (t: u64)
        requires
            i < self.module_types().len(),
        ensures
            t == self.module_types()[i as int],
    {
        self.modules[i]
    }
}

} // verus!
