# basilisk

The decision logic of the Basilisk runtime, verified with Verus.

Each pallet's logic is a set of functions over a plain model of its storage. What a call needs
from other pallets (the current block, the owner of an NFT, balances, reserves, the registry) it
takes as arguments; what other pallets must do (locks, transfers, mints, freezes) it returns as
actions, in order. Every public function states in its contract what it returns and how it
changes the storage, and which error it returns on which inputs.

- `src/auctions.rs`: English auctions of NFTs: creation, updates, bids with anti-sniping,
  closing, reserved amounts.
- `src/nft.rs`: NFT classes and instances for the marketplace and for liquidity mining.
- `src/marketplace.rs`: listing NFTs at a price and buying them.
- `src/stableswap.rs`: stableswap pools of two to five assets.
- `src/stablewap.rs`: two-asset stableswap pools; the curve is computed by `hydra-dx-math`.
- `src/tracks.rs`: the referenda tracks and which origin is decided on which.
- `src/weights/`: the benchmarked weight formulas, with saturating arithmetic.
- `src/arithmetic.rs`, `src/hydra_math.rs`: the calls into `sp-arithmetic` and
  `hydra-dx-math`, with the contracts that the rest relies on.
- `src/store.rs`: a storage double map keyed by two identifiers.
- `app/`: the storage encodings of the NFT types and conversions to the runtime's types.
- `tests/`: scenarios for every module.
