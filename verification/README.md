# tessera_client

The client side of a pool of private accounts, verified with Verus.

An account commits to its balances, its nonce and its keys. Notes carry amounts
between accounts. A transaction consumes an account and notes, by publishing their
nullifiers, and creates an account and notes, by publishing their commitments; a
proof shows that it kept the rules. The library computes everything that such a
proof is about: keys and signatures, commitments and nullifiers, Merkle trees,
transactions, the values of all wires of a circuit, and whether they satisfy it.

## What is proved

- The curve: the quintic extension is a field; compressed points decode to at most
  one point; addition is an abelian group law on the whole curve; the generator has the
  order of the group, which is a prime. Signatures made with a reduced private key and a
  reduced nonce verify under the public key.
- Trees: the root is that of the leaves, and every proof that a tree gives verifies.
- Transactions: a transaction that satisfies its conditions conserves balances,
  keeps the account's identity, and spends only the account's own notes; balances are
  conserved modulo `2^256`. One that a builder made, with proofs that hold and the
  signatures that the builder asks for, satisfies them; a withdrawal does so where
  every asset that it draws on keeps a balance.
- Signature circuits: for any point of the curve, the chain of gates ends at
  `s*G + e*Q`, where it meets no division by zero; and the wires of a signature satisfy
  the circuit, where it meets no vertical line either. Both are premises: the steps of a
  chain depend on the challenge.
- Encodings: bytes, text and public inputs read back what was written.

The hash is a parameter: every function takes a sponge, and contracts speak of what
it returns.

## Layout

- `src/` fields (`field`, `quintic*`, `residue`, `conjugate`), the curve (`ecgfp5`,
  `compression`, `chords`, `curve_group`, `associativity`, `group_law`, `multiples`,
  `generator_order`, `order_prime`, `generator_multiples`), signatures (`scalar`,
  `schnorr`, `signature_laws`), state
  (`tree`, `ast`, `account`, `note`, `pool_config`, `commitment`), circuits (`gates`,
  `schnorr_gadget`, `circuit`, `priv_tx`, `deposit_tx`, `withdraw_tx`), witnesses and
  builders (`tx_witness`, `*_tx`, `*_builder`), and laws (`*_laws`).
- `tests/` ordinary tests, with a small sponge.
- `app/` the same circuits in a proof system, with Poseidon, random values and stored
  forms.
