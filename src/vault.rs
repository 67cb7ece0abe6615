use vstd::prelude::*;
use crate::derive::{
    associated_address_spec, find_associated_address, find_vault_address, found_view,
    vault_address_spec,
};
use crate::key::Key;

verus! {

/// Why an instruction was refused.
#[derive(Clone, Copy, Debug, PartialEq, Eq, Structural)]
pub enum VaultError {
    /// A vault record already stands at the mint's derived address.
    AlreadyExists,
    /// The accounts handed in are not the ones derived from the mint and owners.
    InvalidAccountLinkage,
    /// A required signature is missing, or the signer does not own the source account.
    Unauthorized,
    /// The source account holds less than the amount.
    InsufficientFunds,
    /// The amount is zero.
    InvalidAmount,
}

/// The record of one vault, stored at the address derived from its mint.
#[derive(Clone, Copy, Debug)]
pub struct Vault {
    /// Who initialized the vault.
    pub authority: Key,
    /// The mint whose tokens the vault holds.
    pub mint: Key,
    /// The bump seed of the record's derived address.
    pub bump: u8,
}

/// A token-holding account as the token ledger reports it.
#[derive(Clone, Copy, Debug)]
pub struct TokenAccount {
    pub address: Key,
    pub owner: Key,
    pub mint: Key,
    pub amount: u64,
}

/// The programs the vault works with: its own id, the token program, and the
/// associated-token program.
#[derive(Clone, Copy, Debug)]
pub struct Programs {
    pub vault_program: Key,
    pub token_program: Key,
    pub associated_token_program: Key,
}

/// The accounts of a vault creation.
#[derive(Clone, Copy, Debug)]
pub struct InitializeVault {
    /// Pays for the new accounts and becomes the vault's authority.
    pub payer: Key,
    pub payer_is_signer: bool,
    pub mint: Key,
}

/// The accounts of a deposit.
#[derive(Clone, Copy, Debug)]
pub struct Deposit {
    /// The depositor, who must sign.
    pub user: Key,
    pub user_is_signer: bool,
    pub mint: Key,
    /// The vault's associated token account for `mint`.
    pub vault_token: TokenAccount,
    /// The depositor's associated token account for `mint`.
    pub user_token: TokenAccount,
}

/// The vault records of one program, each at the address derived from its mint.
pub struct Registry {
    programs: Programs,
    entries: Vec<(Key, Vault)>,
}

/// The record stored last at `address` among `entries`.
pub open spec fn record_in(entries: Seq<(Key, Vault)>, address: Seq<u8>) -> Option<Vault>
    decreases entries.len(),
{
    if entries.len() == 0 {
        None
    } else if entries.last().0@ == address {
        Some(entries.last().1)
    } else {
        record_in(entries.drop_last(), address)
    }
}

impl Registry {
    /// The vault record stored at `address`, if any.
    pub closed spec fn record_at(&self, address: Seq<u8>) -> Option<Vault> {
        record_in(self.entries@, address)
    }

    /// The programs this registry works with.
    pub closed spec fn setup(&self) -> Programs {
        self.programs
    }

    /// The programs this registry works with.
    pub fn programs(&self) -> (r: Programs)
        ensures
            r == self.setup(),
    {
        self.programs
    }

    /// A registry with no vaults.
    pub fn new(programs: Programs) -> (r: Registry)
        ensures
            r.setup() == programs,
            forall|a: Seq<u8>| #[trigger] r.record_at(a) is None,
    {
        Registry { programs, entries: Vec::new() }
    }

    /// Looks up the vault record stored at `address`.
    pub fn find_record(&self, address: &Key) -> (r: Option<Vault>)
        ensures
            r == self.record_at(address@),
    {
        let mut i: usize = self.entries.len();
        assert(self.entries@.subrange(0, i as int) =~= self.entries@);
        while i > 0
            invariant
                i <= self.entries@.len(),
                record_in(self.entries@, address@) == record_in(
                    self.entries@.subrange(0, i as int),
                    address@,
                ),
            decreases i,
        {
            let entry = self.entries[i - 1];
            if entry.0.same(address) {
                return Some(entry.1);
            }
            assert(self.entries@.subrange(0, i as int).drop_last() =~= self.entries@.subrange(
                0,
                i - 1,
            ));
            i = i - 1;
        }
        None
    }

    /// Puts back a record read from storage at `address`, in place of any
    /// record held there.
    pub fn restore(&mut self, address: &Key, vault: Vault)
        ensures
            final(self).setup() == old(self).setup(),
            forall|a: Seq<u8>| #[trigger]
                final(self).record_at(a) == if a == address@ {
                    Some(vault)
                } else {
                    old(self).record_at(a)
                },
    {
        let ghost before = self.entries@;
        self.entries.push((*address, vault));
        proof {
            assert(self.entries@.drop_last() =~= before);
            assert forall|a: Seq<u8>| #[trigger]
                self.record_at(a) == if a == address@ {
                    Some(vault)
                } else {
                    old(self).record_at(a)
                } by {
                assert(record_in(self.entries@, a) == if a == address@ {
                    Some(vault)
                } else {
                    record_in(before, a)
                });
            }
        }
    }

    /// Why creating a vault with `ctx` is refused, if it is.
    pub open spec fn init_error(&self, ctx: InitializeVault) -> Option<VaultError> {
        match vault_address_spec(self.setup().vault_program@, ctx.mint@) {
            None => Some(VaultError::InvalidAccountLinkage),
            Some((address, _)) => {
                if self.record_at(address) is Some {
                    Some(VaultError::AlreadyExists)
                } else if !ctx.payer_is_signer {
                    Some(VaultError::Unauthorized)
                } else if associated_address_spec(
                    self.setup().token_program@,
                    self.setup().associated_token_program@,
                    address,
                    ctx.mint@,
                ) is None {
                    Some(VaultError::InvalidAccountLinkage)
                } else {
                    None
                }
            },
        }
    }

    /// Whether the accounts of `ctx` are those derived for its mint and user:
    /// a vault record stands at the mint's derived address, the vault's token
    /// account is the record address's associated account for the mint, and
    /// the user's token account is the user's associated account for the mint.
    pub open spec fn linked(&self, ctx: Deposit) -> bool {
        match vault_address_spec(self.setup().vault_program@, ctx.mint@) {
            None => false,
            Some((address, bump)) => match self.record_at(address) {
                None => false,
                Some(vault) => {
                    &&& vault.mint@ == ctx.mint@
                    &&& vault.bump == bump
                    &&& ctx.vault_token.owner@ == address
                    &&& ctx.vault_token.mint@ == ctx.mint@
                    &&& associated_address_spec(
                        self.setup().token_program@,
                        self.setup().associated_token_program@,
                        address,
                        ctx.mint@,
                    ) == Some(ctx.vault_token.address@)
                    &&& ctx.user_token.mint@ == ctx.mint@
                    &&& associated_address_spec(
                        self.setup().token_program@,
                        self.setup().associated_token_program@,
                        ctx.user@,
                        ctx.mint@,
                    ) == Some(ctx.user_token.address@)
                    &&& ctx.user_token.address@ != ctx.vault_token.address@
                },
            },
        }
    }

    /// Why a deposit of `amount` with `ctx` is refused, if it is.
    pub open spec fn deposit_error(&self, ctx: Deposit, amount: u64) -> Option<VaultError> {
        if amount == 0 {
            Some(VaultError::InvalidAmount)
        } else if !ctx.user_is_signer || ctx.user_token.owner@ != ctx.user@ {
            Some(VaultError::Unauthorized)
        } else if !self.linked(ctx) {
            Some(VaultError::InvalidAccountLinkage)
        } else if ctx.user_token.amount < amount {
            Some(VaultError::InsufficientFunds)
        } else {
            None
        }
    }
}

/// What a successful creation with `ctx` leaves: `vault` stands at the mint's
/// derived address, `token` is that address's new, empty associated account
/// for the mint, and no other record changed.
pub open spec fn created(
    before: Registry,
    after: Registry,
    ctx: InitializeVault,
    vault: Vault,
    token: TokenAccount,
) -> bool {
    match vault_address_spec(before.setup().vault_program@, ctx.mint@) {
        None => false,
        Some((address, bump)) => {
            &&& vault == (Vault { authority: ctx.payer, mint: ctx.mint, bump })
            &&& associated_address_spec(
                before.setup().token_program@,
                before.setup().associated_token_program@,
                address,
                ctx.mint@,
            ) == Some(token.address@)
            &&& token.owner@ == address
            &&& token.mint == ctx.mint
            &&& token.amount == 0
            &&& after.setup() == before.setup()
            &&& forall|a: Seq<u8>| #[trigger]
                after.record_at(a) == if a == address {
                    Some(vault)
                } else {
                    before.record_at(a)
                }
        },
    }
}

/// Creates the vault of `ctx.mint`: stores its record at the address derived
/// from the mint, and provisions the record's associated token account.
/// Refused when a record already stands there, or when the payer did not sign.
pub fn initialize_vault(registry: &mut Registry, ctx: &InitializeVault) -> (r: Result<
    (Vault, TokenAccount),
    VaultError,
>)
    ensures
        old(registry).init_error(*ctx) is None <==> r is Ok,
        r matches Err(e) ==> old(registry).init_error(*ctx) == Some(e) && *final(registry) == *old(
            registry,
        ),
        r matches Ok((vault, token)) ==> created(*old(registry), *final(registry), *ctx, vault, token),
{
    let programs = registry.programs;
    let (address, bump) = match find_vault_address(&programs.vault_program, &ctx.mint) {
        Some(found) => found,
        None => return Err(VaultError::InvalidAccountLinkage),
    };
    if registry.find_record(&address).is_some() {
        return Err(VaultError::AlreadyExists);
    }
    if !ctx.payer_is_signer {
        return Err(VaultError::Unauthorized);
    }
    let token_address = match find_associated_address(
        &programs.token_program,
        &programs.associated_token_program,
        &address,
        &ctx.mint,
    ) {
        Some(a) => a,
        None => return Err(VaultError::InvalidAccountLinkage),
    };
    let vault = Vault { authority: ctx.payer, mint: ctx.mint, bump };
    let token = TokenAccount { address: token_address, owner: address, mint: ctx.mint, amount: 0 };
    registry.restore(&address, vault);
    Ok((vault, token))
}

/// A vault is created at most once per mint: once a creation for a mint has
/// succeeded, every later creation for that mint is refused with
/// `AlreadyExists`, whoever pays for it.
pub proof fn lemma_create_at_most_once(
    before: Registry,
    after: Registry,
    first: InitializeVault,
    vault: Vault,
    token: TokenAccount,
    second: InitializeVault,
)
    requires
        created(before, after, first, vault, token),
        second.mint@ == first.mint@,
    ensures
        after.init_error(second) == Some(VaultError::AlreadyExists),
{
    let (address, _) = vault_address_spec(before.setup().vault_program@, first.mint@).unwrap();
    assert(after.record_at(address) == Some(vault));
}

/// A creation never removes a record: every address that held a record
/// before still holds the same one after.
pub proof fn lemma_create_keeps_records(
    before: Registry,
    after: Registry,
    ctx: InitializeVault,
    vault: Vault,
    token: TokenAccount,
    address: Seq<u8>,
)
    requires
        created(before, after, ctx, vault, token),
        before.init_error(ctx) is None,
        before.record_at(address) is Some,
    ensures
        after.record_at(address) == before.record_at(address),
{
    assert(after.record_at(address) == before.record_at(address));
}

/// Whether the accounts of `ctx` are linked as the registry derives them.
fn check_linkage(registry: &Registry, ctx: &Deposit) -> (r: bool)
    ensures
        r == registry.linked(*ctx),
{
    let programs = registry.programs;
    let (address, bump) = match find_vault_address(&programs.vault_program, &ctx.mint) {
        Some(found) => found,
        None => return false,
    };
    let vault = match registry.find_record(&address) {
        Some(v) => v,
        None => return false,
    };
    if !vault.mint.same(&ctx.mint) || vault.bump != bump {
        return false;
    }
    if !ctx.vault_token.owner.same(&address) || !ctx.vault_token.mint.same(&ctx.mint) {
        return false;
    }
    match find_associated_address(
        &programs.token_program,
        &programs.associated_token_program,
        &address,
        &ctx.mint,
    ) {
        Some(a) => {
            if !a.same(&ctx.vault_token.address) {
                return false;
            }
        },
        None => return false,
    }
    if !ctx.user_token.mint.same(&ctx.mint) {
        return false;
    }
    match find_associated_address(
        &programs.token_program,
        &programs.associated_token_program,
        &ctx.user,
        &ctx.mint,
    ) {
        Some(a) => {
            if !a.same(&ctx.user_token.address) {
                return false;
            }
        },
        None => return false,
    }
    !ctx.user_token.address.same(&ctx.vault_token.address)
}

/// Moves `amount` tokens from the user's token account into the vault's,
/// after checking the amount, the user's authority, and that both accounts
/// are the ones derived from the mint. A refused deposit changes nothing.
/// The two balances, both of one mint, sum to at most the mint's supply.
pub fn deposit(registry: &Registry, ctx: &mut Deposit, amount: u64) -> (r: Result<(), VaultError>)
    requires
        old(ctx).user_token.amount + old(ctx).vault_token.amount <= u64::MAX,
    ensures
        r matches Err(e) ==> registry.deposit_error(*old(ctx), amount) == Some(e) && *final(ctx)
            == *old(ctx),
        r is Ok ==> registry.deposit_error(*old(ctx), amount) is None,
        r is Ok ==> final(ctx).user_token.amount == old(ctx).user_token.amount - amount,
        r is Ok ==> final(ctx).vault_token.amount == old(ctx).vault_token.amount + amount,
        r is Ok ==> *final(ctx) == (Deposit {
            user_token: TokenAccount { amount: final(ctx).user_token.amount, ..old(ctx).user_token },
            vault_token: TokenAccount {
                amount: final(ctx).vault_token.amount,
                ..old(ctx).vault_token
            },
            ..*old(ctx)
        }),
        final(ctx).user_token.amount + final(ctx).vault_token.amount == old(ctx).user_token.amount
            + old(ctx).vault_token.amount,
        amount == 0 ==> r == Err::<(), VaultError>(VaultError::InvalidAmount),
        amount > 0 && old(ctx).user_token.owner@ != old(ctx).user@ ==> r == Err::<(), VaultError>(
            VaultError::Unauthorized,
        ),
        amount > 0 && old(ctx).user_is_signer && old(ctx).user_token.owner@ == old(ctx).user@ && (
        match vault_address_spec(registry.setup().vault_program@, old(ctx).mint@) {
            None => true,
            Some((address, _)) => registry.record_at(address) is None,
        }) ==> r == Err::<(), VaultError>(VaultError::InvalidAccountLinkage),
{
    if amount == 0 {
        return Err(VaultError::InvalidAmount);
    }
    if !ctx.user_is_signer || !ctx.user_token.owner.same(&ctx.user) {
        return Err(VaultError::Unauthorized);
    }
    if !check_linkage(registry, ctx) {
        return Err(VaultError::InvalidAccountLinkage);
    }
    if ctx.user_token.amount < amount {
        return Err(VaultError::InsufficientFunds);
    }
    ctx.user_token.amount = ctx.user_token.amount - amount;
    ctx.vault_token.amount = ctx.vault_token.amount + amount;
    Ok(())
}

} // verus!
