//! The product marketplace: discount products with a finite number of
//! redemptions, funded through a three-way payment split.

use vstd::prelude::*;

use vstd::arithmetic::div_mod::{lemma_fundamental_div_mod, lemma_mod_bound};

use crate::errors::Error;
use crate::{scaled_amount, AccountId, Transfer, SCALE_FACTOR};

verus! {

/// Percentage of every payment owed to the reserve account.
pub const RESERVE_PER: i128 = 60;

/// Percentage of every payment owed to the launchpad account.
pub const LAUNCHPAD_PER: i128 = 10;

/// Percentage of every payment owed to the development account.
pub const DEV_PER: i128 = 30;

/// Largest raw amount a discount purchase may carry, namely
/// `i128::MAX / SCALE_FACTOR / RESERVE_PER`: above it the scaled share
/// products no longer fit in `i128` and the host would trap.
pub const MAX_DISCOUNT_AMOUNT: i128 = 283_568_639_100_782_052_886_145_506_193;

/// The percentage sum is recomputed from the constants rather than
/// assumed to equal 100, so a change of one constant cannot silently
/// skew the split.
pub open spec fn percentage_total() -> int {
    RESERVE_PER + LAUNCHPAD_PER + DEV_PER
}

/// The scaled share owed to a role: multiply by the role's percentage,
/// then floor-divide by the recomputed percentage sum.
pub open spec fn role_share(amount: i128, percentage: i128) -> int {
    scaled_amount(amount) * percentage / percentage_total()
}

/// For every raw amount a discount purchase may carry, each role's
/// share is positive, the shares together never exceed the scaled
/// amount (the floor divisions may drop at most three scaled units of
/// dust, which is not redistributed), and each share is proportional
/// to its configured percentage up to floor-division rounding.
pub proof fn lemma_discount_split_bounds(amount: i128)
    requires
        0 < amount <= MAX_DISCOUNT_AMOUNT,
    ensures
        0 < role_share(amount, RESERVE_PER),
        0 < role_share(amount, LAUNCHPAD_PER),
        0 < role_share(amount, DEV_PER),
        role_share(amount, RESERVE_PER) + role_share(amount, LAUNCHPAD_PER) + role_share(
            amount,
            DEV_PER,
        ) <= scaled_amount(amount),
        scaled_amount(amount) - 3 < role_share(amount, RESERVE_PER) + role_share(
            amount,
            LAUNCHPAD_PER,
        ) + role_share(amount, DEV_PER),
        percentage_total() * role_share(amount, RESERVE_PER) <= RESERVE_PER * scaled_amount(
            amount,
        ),
        RESERVE_PER * scaled_amount(amount) - percentage_total() < percentage_total() * role_share(
            amount,
            RESERVE_PER,
        ),
        percentage_total() * role_share(amount, LAUNCHPAD_PER) <= LAUNCHPAD_PER * scaled_amount(
            amount,
        ),
        LAUNCHPAD_PER * scaled_amount(amount) - percentage_total() < percentage_total()
            * role_share(amount, LAUNCHPAD_PER),
        percentage_total() * role_share(amount, DEV_PER) <= DEV_PER * scaled_amount(amount),
        DEV_PER * scaled_amount(amount) - percentage_total() < percentage_total() * role_share(
            amount,
            DEV_PER,
        ),
{
    let s = scaled_amount(amount);
    let total = percentage_total();
    let xr = s * RESERVE_PER;
    let xl = s * LAUNCHPAD_PER;
    let xd = s * DEV_PER;
    lemma_fundamental_div_mod(xr, total);
    lemma_mod_bound(xr, total);
    lemma_fundamental_div_mod(xl, total);
    lemma_mod_bound(xl, total);
    lemma_fundamental_div_mod(xd, total);
    lemma_mod_bound(xd, total);
    let qr = xr / total;
    let ql = xl / total;
    let qd = xd / total;
    let mr = xr % total;
    let ml = xl % total;
    let md = xd % total;
    assert(0 < qr && 0 < ql && 0 < qd && qr + ql + qd <= s && s - 3 < qr + ql + qd && total * qr
        <= 60 * s && 60 * s - total < total * qr && total * ql <= 10 * s && 10 * s - total < total
        * ql && total * qd <= 30 * s && 30 * s - total < total * qd) by (nonlinear_arith)
        requires
            amount >= 1,
            s == amount * 10_000_000,
            total == 100,
            xr == s * 60,
            xl == s * 10,
            xd == s * 30,
            xr == total * qr + mr,
            xl == total * ql + ml,
            xd == total * qd + md,
            0 <= mr < total,
            0 <= ml < total,
            0 <= md < total,
    ;
}

/// A discount product.  `remaining` counts the redemptions still
/// available and decreases by exactly one per successful funding call.
#[derive(Debug, PartialEq, Eq)]
pub struct Product {
    pub id: u32,
    pub title: String,
    pub description: String,
    pub category: String,
    pub expiry: u64,
    pub image: String,
    pub price: i128,
    pub remaining: i128,
}

impl Clone for Product {
    fn clone(&self) -> (res: Self)
        ensures
            res == *self,
    {
        Product {
            id: self.id,
            title: self.title.clone(),
            description: self.description.clone(),
            category: self.category.clone(),
            expiry: self.expiry,
            image: self.image.clone(),
            price: self.price,
            remaining: self.remaining,
        }
    }
}

/// The record `get_product` hands back when nothing is stored under
/// the requested identifier: id zero is never assigned to a real
/// product and marks the miss.
pub open spec fn is_sentinel_product(p: Product) -> bool {
    &&& p.id == 0
    &&& p.title@ == Seq::<char>::empty()
    &&& p.description@ == Seq::<char>::empty()
    &&& p.category@ == Seq::<char>::empty()
    &&& p.image@ == Seq::<char>::empty()
    &&& p.expiry == 0
    &&& p.price == 0
    &&& p.remaining == 0
}

/// The beneficiary roles of the marketplace.
#[derive(Clone, Copy, Debug, PartialEq, Eq, Structural)]
pub enum DataKey {
    ReserveAccount,
    DevAccount,
    LaunchpadAccount,
    Admin,
}

/// The role bindings, set exactly once by `initialize`.
#[derive(Clone, Copy, Debug, PartialEq, Eq, Structural)]
pub struct RoleAccounts {
    pub reserve: AccountId,
    pub dev: AccountId,
    pub launchpad: AccountId,
    pub admin: AccountId,
}

/// The whole state of the marketplace: the role registry, the product
/// counter and the product store, keyed densely by id.
pub struct Marketplace {
    pub accounts: Option<RoleAccounts>,
    pub counter: u32,
    pub products: Vec<Product>,
}

impl Marketplace {
    /// Identifiers are dense: the counter equals the number of stored
    /// products and slot `i` holds the product with id `i + 1`, so id
    /// zero is never occupied.
    pub open spec fn wf(self) -> bool {
        &&& self.counter as int == self.products@.len()
        &&& forall|i: int|
            0 <= i < self.products@.len() ==> (#[trigger] self.products@[i]).id as int == i + 1
    }

    /// Whether the role registry has been populated.
    pub open spec fn initialized(self) -> bool {
        self.accounts is Some
    }

    /// The role bindings; meaningful only once initialized.
    pub open spec fn roles(self) -> RoleAccounts {
        self.accounts->Some_0
    }

    /// Whether a product is stored under `id`.
    pub open spec fn has_product(self, id: u32) -> bool {
        1 <= id <= self.counter
    }

    /// The product stored under `id`; meaningful only when
    /// `has_product(id)` holds.
    pub open spec fn product_at(self, id: u32) -> Product {
        self.products@[id as int - 1]
    }

    /// An empty marketplace: no bindings, no products.
    pub fn new() -> (m: Marketplace)
        ensures
            m.wf(),
            !m.initialized(),
            m.counter == 0,
            m.products@ == Seq::<Product>::empty(),
    {
        Marketplace { accounts: None, counter: 0, products: Vec::new() }
    }

    /// Populates the role registry, exactly once.  A second call fails
    /// with `AlreadyInitialized` and leaves every binding unchanged.
    ///
    /// The host must have authenticated `admin` as the caller of the
    /// current invocation before this runs.
    pub fn initialize(
        &mut self,
        reserve_acc: AccountId,
        dev_acc: AccountId,
        launchpad_acc: AccountId,
        admin: AccountId,
    ) -> (r: Result<String, Error>)
        ensures
            old(self).initialized() ==> {
                &&& r == Err::<String, Error>(Error::AlreadyInitialized)
                &&& *final(self) == *old(self)
            },
            !old(self).initialized() ==> {
                &&& final(self).accounts == Some(
                    (RoleAccounts {
                        reserve: reserve_acc,
                        dev: dev_acc,
                        launchpad: launchpad_acc,
                        admin,
                    }),
                )
                &&& final(self).counter == old(self).counter
                &&& final(self).products == old(self).products
                &&& r matches Ok(s) && s@ == "Initialized"@
            },
    {
        if self.accounts.is_some() {
            return Err(Error::AlreadyInitialized);
        }
        self.accounts = Some(
            RoleAccounts { reserve: reserve_acc, dev: dev_acc, launchpad: launchpad_acc, admin },
        );
        Ok(String::from_str("Initialized"))
    }

    /// The account bound to a role.  Reading before initialization is
    /// a programming-contract violation, ruled out by the caller.
    pub fn get_role_account(&self, key: DataKey) -> (r: AccountId)
        requires
            self.initialized(),
        ensures
            r == (match key {
                DataKey::ReserveAccount => self.roles().reserve,
                DataKey::DevAccount => self.roles().dev,
                DataKey::LaunchpadAccount => self.roles().launchpad,
                DataKey::Admin => self.roles().admin,
            }),
    {
        let roles = self.accounts.unwrap();
        match key {
            DataKey::ReserveAccount => roles.reserve,
            DataKey::DevAccount => roles.dev,
            DataKey::LaunchpadAccount => roles.launchpad,
            DataKey::Admin => roles.admin,
        }
    }

    /// The reserve account.
    pub fn get_reserve_acc(&self) -> (r: AccountId)
        requires
            self.initialized(),
        ensures
            r == self.roles().reserve,
    {
        self.get_role_account(DataKey::ReserveAccount)
    }

    /// The development account.
    pub fn get_dev_acc(&self) -> (r: AccountId)
        requires
            self.initialized(),
        ensures
            r == self.roles().dev,
    {
        self.get_role_account(DataKey::DevAccount)
    }

    /// The launchpad account.
    pub fn get_launchpad_acc(&self) -> (r: AccountId)
        requires
            self.initialized(),
        ensures
            r == self.roles().launchpad,
    {
        self.get_role_account(DataKey::LaunchpadAccount)
    }

    /// The administrator account.
    pub fn get_admin(&self) -> (r: AccountId)
        requires
            self.initialized(),
        ensures
            r == self.roles().admin,
    {
        self.get_role_account(DataKey::Admin)
    }

    /// Creates a new product under the next identifier.  `now` is the
    /// current ledger time: the expiry must lie strictly in the
    /// future, else the call fails with `ExpiryShouldBeFuture` and the
    /// counter stays unchanged.
    pub fn create_product(
        &mut self,
        now: u64,
        product_title: String,
        product_description: String,
        product_category: String,
        product_expiry: u64,
        product_image: String,
        product_price: i128,
        product_target: i128,
    ) -> (r: Result<Product, Error>)
        requires
            old(self).wf(),
            now < product_expiry ==> old(self).counter < u32::MAX,
        ensures
            final(self).wf(),
            final(self).accounts == old(self).accounts,
            product_expiry <= now ==> {
                &&& r == Err::<Product, Error>(Error::ExpiryShouldBeFuture)
                &&& *final(self) == *old(self)
            },
            now < product_expiry ==> {
                &&& r matches Ok(p) && p == (Product {
                    id: (old(self).counter + 1) as u32,
                    title: product_title,
                    description: product_description,
                    category: product_category,
                    expiry: product_expiry,
                    image: product_image,
                    price: product_price,
                    remaining: product_target,
                })
                &&& final(self).counter == old(self).counter + 1
                &&& final(self).products@ == old(self).products@.push(r->Ok_0)
            },
    {
        if product_expiry <= now {
            return Err(Error::ExpiryShouldBeFuture);
        }
        let mut count_id: u32 = self.counter;
        count_id = count_id + 1;

        let check_product = self.get_product(count_id);
        if check_product.id == count_id {
            return Err(Error::ProductAlreadyExist);
        }
        if count_id == 0 {
            return Err(Error::IdProductMustNonZero);
        }
        let product = Product {
            id: count_id,
            title: product_title,
            description: product_description,
            remaining: product_target,
            expiry: product_expiry,
            category: product_category,
            image: product_image,
            price: product_price,
        };
        self.counter = count_id;
        self.products.push(product.clone());
        Ok(product)
    }

    /// The product stored under `product_id`, or the sentinel record
    /// when nothing is stored there.  Never fails.
    pub fn get_product(&self, product_id: u32) -> (r: Product)
        requires
            self.wf(),
        ensures
            self.has_product(product_id) ==> r == self.product_at(product_id),
            !self.has_product(product_id) ==> is_sentinel_product(r),
    {
        if 1 <= product_id && product_id <= self.counter {
            let idx = (product_id - 1) as usize;
            self.products[idx].clone()
        } else {
            Product {
                id: 0,
                title: String::new(),
                description: String::new(),
                category: String::new(),
                expiry: 0,
                image: String::new(),
                price: 0,
                remaining: 0,
            }
        }
    }

    /// Splits a raw amount into the scaled shares of the three roles.
    fn split_payment(amount: i128) -> (shares: (i128, i128, i128))
        requires
            0 < amount <= MAX_DISCOUNT_AMOUNT,
        ensures
            shares.0 == role_share(amount, RESERVE_PER),
            shares.1 == role_share(amount, LAUNCHPAD_PER),
            shares.2 == role_share(amount, DEV_PER),
    {
        let total_percentage: i128 = RESERVE_PER + LAUNCHPAD_PER + DEV_PER;
        let real_amount: i128 = amount * SCALE_FACTOR;
        let reserve_amount: i128 = (real_amount * RESERVE_PER) / total_percentage;
        let launchpad_amount: i128 = (real_amount * LAUNCHPAD_PER) / total_percentage;
        let dev_amount: i128 = (real_amount * DEV_PER) / total_percentage;
        (reserve_amount, launchpad_amount, dev_amount)
    }

    /// Redeems one discount of product `id`, paid by `customer_address`
    /// with `amount` units of the token `token_id`.
    ///
    /// On success the scaled shares `(reserve, launchpad, dev)` are
    /// returned; the host must then move each share from the customer
    /// to the matching role account (see [`Self::discount_transfers`])
    /// and abort the whole call if any movement fails.  `remaining`
    /// decreases by exactly one, whatever the amount.
    ///
    /// The host must have authenticated `customer_address` as the
    /// caller of the current invocation before this runs.
    pub fn get_discount(
        &mut self,
        id: u32,
        customer_address: AccountId,
        amount: i128,
        token_id: AccountId,
    ) -> (r: Result<(i128, i128, i128), Error>)
        requires
            old(self).wf(),
            amount <= MAX_DISCOUNT_AMOUNT,
        ensures
            final(self).wf(),
            final(self).counter == old(self).counter,
            final(self).accounts == old(self).accounts,
            amount <= 0 ==> {
                &&& r == Err::<(i128, i128, i128), Error>(Error::AmountMustBeGreaterThanZero)
                &&& *final(self) == *old(self)
            },
            amount > 0 && !old(self).has_product(id) ==> {
                &&& r == Err::<(i128, i128, i128), Error>(Error::ProductNotExist)
                &&& *final(self) == *old(self)
            },
            amount > 0 && old(self).has_product(id) && old(self).product_at(id).remaining <= 0
                ==> {
                &&& r == Err::<(i128, i128, i128), Error>(Error::TargetReached)
                &&& *final(self) == *old(self)
            },
            amount > 0 && old(self).has_product(id) && old(self).product_at(id).remaining > 0
                ==> {
                &&& r matches Ok(shares)
                &&& shares.0 == role_share(amount, RESERVE_PER)
                &&& shares.1 == role_share(amount, LAUNCHPAD_PER)
                &&& shares.2 == role_share(amount, DEV_PER)
                &&& final(self).products@ == old(self).products@.update(id - 1, (Product {
                    remaining: (old(self).product_at(id).remaining - 1) as i128,
                    ..old(self).product_at(id)
                }))
            },
    {
        if amount <= 0 {
            return Err(Error::AmountMustBeGreaterThanZero);
        }
        let mut check_product = self.get_product(id);
        if check_product.id != id || id == 0 {
            return Err(Error::ProductNotExist);
        }
        if amount <= 0 {
            return Err(Error::AmountMustNonZero);
        }
        if check_product.remaining <= 0 {
            return Err(Error::TargetReached);
        }
        let (reserve_amount, launchpad_amount, dev_amount) = Self::split_payment(amount);
        proof {
            lemma_discount_split_bounds(amount);
        }
        if reserve_amount == 0 || launchpad_amount == 0 || dev_amount == 0 {
            return Err(Error::LowAmountForSplitter);
        }
        check_product.remaining = check_product.remaining - 1;
        let idx = (id - 1) as usize;
        self.products[idx] = check_product;
        Ok((reserve_amount, launchpad_amount, dev_amount))
    }

    /// The token movements a successful discount purchase demands, in
    /// the fixed order the host must perform them: the customer pays
    /// each role its scaled share of `amount` — reserve first, then
    /// the operational roles.  The host aborts the whole call if any
    /// movement fails.
    pub fn discount_transfers(
        &self,
        customer_address: AccountId,
        amount: i128,
        token_id: AccountId,
    ) -> (r: Vec<Transfer>)
        requires
            self.initialized(),
            0 < amount <= MAX_DISCOUNT_AMOUNT,
        ensures
            r@ == seq![
                (Transfer {
                    token: token_id,
                    from: customer_address,
                    to: self.roles().reserve,
                    amount: role_share(amount, RESERVE_PER) as i128,
                }),
                (Transfer {
                    token: token_id,
                    from: customer_address,
                    to: self.roles().dev,
                    amount: role_share(amount, DEV_PER) as i128,
                }),
                (Transfer {
                    token: token_id,
                    from: customer_address,
                    to: self.roles().launchpad,
                    amount: role_share(amount, LAUNCHPAD_PER) as i128,
                }),
            ],
    {
        let (reserve_amount, launchpad_amount, dev_amount) = Self::split_payment(amount);
        let mut transfers: Vec<Transfer> = Vec::new();
        transfers.push(
            Transfer {
                token: token_id,
                from: customer_address,
                to: self.get_reserve_acc(),
                amount: reserve_amount,
            },
        );
        transfers.push(
            Transfer {
                token: token_id,
                from: customer_address,
                to: self.get_dev_acc(),
                amount: dev_amount,
            },
        );
        transfers.push(
            Transfer {
                token: token_id,
                from: customer_address,
                to: self.get_launchpad_acc(),
                amount: launchpad_amount,
            },
        );
        proof {
            assert(transfers@ =~= seq![
                (Transfer {
                    token: token_id,
                    from: customer_address,
                    to: self.roles().reserve,
                    amount: role_share(amount, RESERVE_PER) as i128,
                }),
                (Transfer {
                    token: token_id,
                    from: customer_address,
                    to: self.roles().dev,
                    amount: role_share(amount, DEV_PER) as i128,
                }),
                (Transfer {
                    token: token_id,
                    from: customer_address,
                    to: self.roles().launchpad,
                    amount: role_share(amount, LAUNCHPAD_PER) as i128,
                }),
            ]);
        }
        transfers
    }

    /// All stored products, in ascending id order.
    pub fn get_products(&self) -> (r: Vec<Product>)
        requires
            self.wf(),
        ensures
            r@ == self.products@,
    {
        let mut products: Vec<Product> = Vec::new();
        let mut idx: usize = 0;
        while idx < self.products.len()
            invariant
                self.wf(),
                idx <= self.products@.len(),
                products@ =~= self.products@.subrange(0, idx as int),
            decreases self.products@.len() - idx,
        {
            let product = self.get_product((idx as u32) + 1);
            products.push(product);
            idx = idx + 1;
        }
        proof {
            assert(products@ =~= self.products@);
        }
        products
    }
}

/// After every successful creation the returned product carries id
/// `priorCount + 1` and a read of that id hands back a product equal
/// to the one created: creating and storing are one unit.
pub proof fn lemma_created_product_readable(pre: Marketplace, post: Marketplace, p: Product)
    requires
        pre.wf(),
        p.id == pre.counter + 1,
        post.counter == pre.counter + 1,
        post.products@ == pre.products@.push(p),
    ensures
        post.wf(),
        post.has_product(p.id),
        post.product_at(p.id) == p,
{
}

} // verus!
