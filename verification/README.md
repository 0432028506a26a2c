# pomodoro

Núcleo de um temporizador pomodoro com bloqueio de tela, verificado com Verus.

- `src/` — a biblioteca verificada: tempo e durações, timer, ciclo em execução,
  plano de durações (global ou por sessão), atividades de pausa e suas URLs
  (com a URL de embed de vídeos do YouTube), histórico diário em anel de 90
  dias, o contrato com a interface, a conversão da configuração e das datas
  para o formato gravado, e a supressão de atalhos do GNOME (lista de chaves,
  snapshot dos valores originais e o gerenciador que suprime e restaura).
  Cada função pública tem um contrato sobre visões matemáticas; as leis que
  valem entre funções estão como `pub proof fn`.
- `app/` — o que a biblioteca não faz: o arquivo TOML e a escrita atômica, o
  banco SQLite do histórico, o snapshot de atalhos em disco e o `Drop` que o
  restaura, o acesso real ao gsettings, e as cópias dos tipos com `serde` e
  `thiserror`.
- `tests/` — os testes de comportamento, executados com as dependências reais.
