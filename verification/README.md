# eml_nl value types

Verified value types of the EML_NL election markup language.

- `src/utils`: code lists (`Gender`, `GenderType`, `AffiliationType`,
  `PublicationLanguageType`, `VotingChannelType`) and the identifiers
  `CandidateIdType` and `ContestId`, validated by regular expressions.
- `src/common`: `RegionCategory`, `CountryNameCode`, `ElectionTree`,
  `CandidateIdentifier`, `ElectionDomain`, `MinimalQualifyingAddress`.
- `src/documents`: the count (`510a`-`510d`) and result (`520`) documents: their
  codes (`CountType`, `InvestigationReason`, `UncountedVotesReason`,
  `ReportingUnitIdentifierIdType`, `RankingType`, `YesNoType`), their
  structures, and how selections and votes are read and written.
- `src/pattern.rs`: the regular expressions, run by the `regex` crate; what a
  pattern matches is a named result, not restated.
- `src/text.rs`: string comparison, proved over the characters of both strings.
- `src/xml.rs`: the plain-value view of the markup. Reading: the caller reads
  each child element into a value and a verified step decides what the element
  is (which child counts, what is missing, what is unexpected in strict and in
  lax mode), and each error carries the span of the document where it was
  found. Writing: a verified step lists the element's events (start,
  attributes, text, children, end) in document order.
- `app/`: a printer of those events as XML text, and copies of the error types
  with `Display` and `std::error::Error` derived by `thiserror`.

Every code list comes with a proof that its parser and its printer are inverse
to each other, and a selection, a qualifying address, total votes and reporting
unit votes read from the children they are written with are the same values.
