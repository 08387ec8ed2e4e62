use vstd::prelude::*;
use std::sync::Arc;
use crate::errors::{store_outcome, QuestError};
use crate::journey_ledger::is_store_failure;
use crate::models::RegisterModel;
use crate::repositories::{AdventurersRepository, GuildCommandersRepository};

verus! {

/// Registers adventurers; the secret is hashed before it reaches this use case.
pub struct AdventurersUsecase<T> where T: AdventurersRepository + Send + Sync {
    adventurers_repository: Arc<T>,
}

/// Registers guild commanders; the secret is hashed before it reaches this use case.
pub struct GuildCommandersUseCase<T> where T: GuildCommandersRepository + Send + Sync {
    guild_commanders_repository: Arc<T>,
}

/// The registration data with its secret replaced by `hashed_password`: what reaches the store.
pub fn with_hashed_password(model: RegisterModel, hashed_password: String) -> (r: RegisterModel)
    ensures
        r == (RegisterModel { password: hashed_password, ..model }),
{
    RegisterModel { password: hashed_password, ..model }
}

impl<T> AdventurersUsecase<T> where T: AdventurersRepository + Send + Sync {
    /// The store new adventurers are written to.
    pub closed spec fn store(&self) -> Arc<T> {
        self.adventurers_repository
    }

    pub fn new(adventurers_repository: Arc<T>) -> (r: Self)
        ensures
            r.store() == adventurers_repository,
    {
        Self { adventurers_repository }
    }

    /// Hands `with_hashed_password` of its arguments to the store; the store's id, or its
    /// failure through `store_outcome`, is returned.
    pub fn register(&self, register_adventurer_model: RegisterModel, hashed_password: String) -> (r:
        Result<i32, QuestError>)
        ensures
            r is Err ==> is_store_failure(r->Err_0),
    {
        let entity = with_hashed_password(register_adventurer_model, hashed_password);
        store_outcome(self.adventurers_repository.register(entity))
    }
}

impl<T> GuildCommandersUseCase<T> where T: GuildCommandersRepository + Send + Sync {
    /// The store new guild commanders are written to.
    pub closed spec fn store(&self) -> Arc<T> {
        self.guild_commanders_repository
    }

    pub fn new(guild_commanders_repository: Arc<T>) -> (r: Self)
        ensures
            r.store() == guild_commanders_repository,
    {
        Self { guild_commanders_repository }
    }

    /// Hands `with_hashed_password` of its arguments to the store; the store's id, or its
    /// failure through `store_outcome`, is returned.
    pub fn register(&self, register_guild_commander_model: RegisterModel, hashed_password: String) -> (r:
        Result<i32, QuestError>)
        ensures
            r is Err ==> is_store_failure(r->Err_0),
    {
        let entity = with_hashed_password(register_guild_commander_model, hashed_password);
        store_outcome(self.guild_commanders_repository.register(entity))
    }
}

} // verus!
