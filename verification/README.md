# athena

Zero-knowledge "orbs": a prover shows that a hidden value stands in a
relation (such as a > b) with public values, using a groth16 circuit over
the field of integers modulo 251.

- `src/` is the verified library: splitting bytes into bits, spreading byte
  strings into field elements for the circuit's assignments and public
  inputs, the random client attributes, and the verdict of the comparator
  check on a common reference string.
- `app/` is the program around it: the files of the common reference
  string, and the calls into the proving system (setup, prove, verify).
